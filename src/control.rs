use vstd::prelude::*;

use crate::state::CharacterState;

verus! {

/// An abstract input command bound to a key.
#[derive(Clone, Copy, Debug, PartialEq, Eq, Structural)]
pub enum Action {
    MoveLeft,
    MoveRight,
    MoveAway,
    MoveTowards,
    Jump,
}

/// What one frame of input asks of the character.
///
/// `x` points towards the camera (+1) or away from it (-1), `y` to the right
/// (+1) or to the left (-1); each is -1, 0 or 1 before the caller scales the
/// direction to a speed. `jump` says whether an upward impulse is applied.
#[derive(Clone, Copy, Debug, PartialEq, Eq, Structural)]
pub struct Control {
    pub x: i8,
    pub y: i8,
    pub jump: bool,
}

/// Whether `a` is among the pressed actions.
pub open spec fn pressed(actions: Seq<Action>, a: Action) -> bool {
    exists|j: int| 0 <= j < actions.len() && actions[j] == a
}

/// One axis of movement: +1 for the positive key alone, -1 for the negative
/// key alone, and 0 for neither or both.
pub open spec fn axis(pos: bool, neg: bool) -> int {
    (if pos { 1int } else { 0int }) - (if neg { 1int } else { 0int })
}

fn axis_value(pos: bool, neg: bool) -> (r: i8)
    ensures
        r as int == axis(pos, neg),
{
    let p: i8 = if pos { 1 } else { 0 };
    let n: i8 = if neg { 1 } else { 0 };
    p - n
}

/// Turns the actions pressed this frame into a movement direction and a jump
/// decision, and updates the character's state.
///
/// Opposite keys cancel. A jump is applied only when the character is
/// grounded and the jump action is pressed; it puts the character in the air.
pub fn player_control(actions: &Vec<Action>, state: &mut CharacterState) -> (r: Control)
    ensures
        r.x as int == axis(pressed(actions@, Action::MoveTowards), pressed(actions@, Action::MoveAway)),
        r.y as int == axis(pressed(actions@, Action::MoveRight), pressed(actions@, Action::MoveLeft)),
        r.jump == (pressed(actions@, Action::Jump) && *old(state) is Grounded),
        *final(state) == (if r.jump { CharacterState::InAir } else { *old(state) }),
        pressed(actions@, Action::MoveLeft) && pressed(actions@, Action::MoveRight) ==> r.y == 0,
        pressed(actions@, Action::MoveAway) && pressed(actions@, Action::MoveTowards) ==> r.x == 0,
{
    let mut left = false;
    let mut right = false;
    let mut away = false;
    let mut towards = false;
    let mut jump_pressed = false;
    let mut i: usize = 0;
    while i < actions.len()
        invariant
            i <= actions.len(),
            left == pressed(actions@.take(i as int), Action::MoveLeft),
            right == pressed(actions@.take(i as int), Action::MoveRight),
            away == pressed(actions@.take(i as int), Action::MoveAway),
            towards == pressed(actions@.take(i as int), Action::MoveTowards),
            jump_pressed == pressed(actions@.take(i as int), Action::Jump),
        decreases actions.len() - i,
    {
        let a = actions[i];
        proof {
            let before = actions@.take(i as int);
            let after = actions@.take(i as int + 1);
            assert forall|b: Action| pressed(after, b) == (pressed(before, b) || a == b) by {
                if pressed(after, b) {
                    let j = choose|j: int| 0 <= j < after.len() && after[j] == b;
                    if j < i {
                        assert(before[j] == b);
                    }
                }
                if pressed(before, b) {
                    let j = choose|j: int| 0 <= j < before.len() && before[j] == b;
                    assert(after[j] == b);
                }
                if a == b {
                    assert(after[i as int] == b);
                }
            }
        }
        match a {
            Action::MoveLeft => left = true,
            Action::MoveRight => right = true,
            Action::MoveAway => away = true,
            Action::MoveTowards => towards = true,
            Action::Jump => jump_pressed = true,
        }
        i = i + 1;
    }
    assert(actions@.take(actions.len() as int) =~= actions@);
    let jump = jump_pressed && state.is_grounded();
    if jump {
        *state = CharacterState::InAir;
    }
    Control { x: axis_value(towards, away), y: axis_value(right, left), jump }
}

} // verus!
