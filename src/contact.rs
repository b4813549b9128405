use vstd::prelude::*;

use crate::state::CharacterState;

verus! {

/// A collision between two entities, each named by its identifier, as the
/// physics engine reports it: contact began, or contact ended.
#[derive(Clone, Copy, Debug, PartialEq, Eq, Structural)]
pub enum CollisionEvent {
    Started(u64, u64),
    Stopped(u64, u64),
}

/// A character entity together with its status.
#[derive(Clone, Copy, Debug, PartialEq, Eq, Structural)]
pub struct Character {
    pub entity: u64,
    pub state: CharacterState,
}

/// Whether `e` is one of the characters.
pub open spec fn is_character(cs: Seq<Character>, e: u64) -> bool {
    exists|k: int| 0 <= k < cs.len() && cs[k].entity == e
}

/// Whether `e` is one of the ground entities.
pub open spec fn is_ground(ground: Seq<u64>, e: u64) -> bool {
    exists|k: int| 0 <= k < ground.len() && ground[k] == e
}

/// The character that a collision between `e1` and `e2` concerns, if it is
/// one between a character and the ground. The first participant is looked
/// up as a character first; only when it is none is the second one tried.
pub open spec fn contact_of(cs: Seq<Character>, ground: Seq<u64>, e1: u64, e2: u64) -> Option<u64> {
    if is_character(cs, e1) {
        if is_ground(ground, e2) {
            Some(e1)
        } else {
            None
        }
    } else if is_character(cs, e2) && is_ground(ground, e1) {
        Some(e2)
    } else {
        None
    }
}

/// The characters with entity `e` put in state `s`, the others unchanged.
pub open spec fn with_state(cs: Seq<Character>, e: u64, s: CharacterState) -> Seq<Character> {
    Seq::new(
        cs.len(),
        |k: int| if cs[k].entity == e { Character { entity: e, state: s } } else { cs[k] },
    )
}

/// The characters after one collision event: a contact with the ground that
/// starts grounds the character, one that stops puts it in the air, and any
/// other event changes nothing.
pub open spec fn after_event(cs: Seq<Character>, ground: Seq<u64>, ev: CollisionEvent) -> Seq<
    Character,
> {
    match ev {
        CollisionEvent::Started(e1, e2) => match contact_of(cs, ground, e1, e2) {
            Some(c) => with_state(cs, c, CharacterState::Grounded),
            None => cs,
        },
        CollisionEvent::Stopped(e1, e2) => match contact_of(cs, ground, e1, e2) {
            Some(c) => with_state(cs, c, CharacterState::InAir),
            None => cs,
        },
    }
}

/// The characters after the events, taken in order.
pub open spec fn after_events(cs: Seq<Character>, ground: Seq<u64>, evs: Seq<CollisionEvent>) -> Seq<
    Character,
>
    decreases evs.len(),
{
    if evs.len() == 0 {
        cs
    } else {
        after_event(after_events(cs, ground, evs.drop_last()), ground, evs.last())
    }
}

/// The two entities that a collision event is between.
pub open spec fn participants(ev: CollisionEvent) -> (u64, u64) {
    match ev {
        CollisionEvent::Started(e1, e2) => (e1, e2),
        CollisionEvent::Stopped(e1, e2) => (e1, e2),
    }
}

/// A contact that starts between a character and a ground entity that is no
/// character grounds that character, whichever of the two is reported first,
/// and leaves every other character as it was.
pub proof fn started_contact_grounds(cs: Seq<Character>, ground: Seq<u64>, c: u64, g: u64)
    requires
        is_character(cs, c),
        is_ground(ground, g),
        !is_character(cs, g),
    ensures
        after_event(cs, ground, CollisionEvent::Started(c, g)) == with_state(
            cs,
            c,
            CharacterState::Grounded,
        ),
        after_event(cs, ground, CollisionEvent::Started(g, c)) == with_state(
            cs,
            c,
            CharacterState::Grounded,
        ),
        forall|k: int|
            0 <= k < cs.len() ==> (#[trigger] with_state(cs, c, CharacterState::Grounded)[k]).state
                == (if cs[k].entity == c { CharacterState::Grounded } else { cs[k].state }),
{
}

/// A contact that stops between a character and a ground entity that is no
/// character puts that character in the air, whichever of the two is
/// reported first, and leaves every other character as it was.
pub proof fn stopped_contact_lifts(cs: Seq<Character>, ground: Seq<u64>, c: u64, g: u64)
    requires
        is_character(cs, c),
        is_ground(ground, g),
        !is_character(cs, g),
    ensures
        after_event(cs, ground, CollisionEvent::Stopped(c, g)) == with_state(
            cs,
            c,
            CharacterState::InAir,
        ),
        after_event(cs, ground, CollisionEvent::Stopped(g, c)) == with_state(
            cs,
            c,
            CharacterState::InAir,
        ),
        forall|k: int|
            0 <= k < cs.len() ==> (#[trigger] with_state(cs, c, CharacterState::InAir)[k]).state
                == (if cs[k].entity == c { CharacterState::InAir } else { cs[k].state }),
{
}

/// A collision in which no ground entity takes part changes no character.
pub proof fn unrelated_collision_ignored(cs: Seq<Character>, ground: Seq<u64>, ev: CollisionEvent)
    requires
        !is_ground(ground, participants(ev).0),
        !is_ground(ground, participants(ev).1),
    ensures
        after_event(cs, ground, ev) == cs,
{
}

fn find_character(cs: &Vec<Character>, e: u64) -> (r: bool)
    ensures
        r == is_character(cs@, e),
{
    let mut i: usize = 0;
    while i < cs.len()
        invariant
            i <= cs.len(),
            forall|k: int| 0 <= k < i ==> cs@[k].entity != e,
        decreases cs.len() - i,
    {
        if cs[i].entity == e {
            return true;
        }
        i = i + 1;
    }
    false
}

fn find_ground(ground: &Vec<u64>, e: u64) -> (r: bool)
    ensures
        r == is_ground(ground@, e),
{
    let mut i: usize = 0;
    while i < ground.len()
        invariant
            i <= ground.len(),
            forall|k: int| 0 <= k < i ==> ground@[k] != e,
        decreases ground.len() - i,
    {
        if ground[i] == e {
            return true;
        }
        i = i + 1;
    }
    false
}

/// The character that a collision between `e1` and `e2` concerns, if it is
/// one between a character and a ground entity.
pub fn ground_contact(cs: &Vec<Character>, ground: &Vec<u64>, e1: u64, e2: u64) -> (r: Option<u64>)
    ensures
        r == contact_of(cs@, ground@, e1, e2),
{
    if find_character(cs, e1) {
        if find_ground(ground, e2) {
            Some(e1)
        } else {
            None
        }
    } else if find_character(cs, e2) && find_ground(ground, e1) {
        Some(e2)
    } else {
        None
    }
}

fn set_state(cs: &mut Vec<Character>, e: u64, s: CharacterState)
    ensures
        final(cs)@ == with_state(old(cs)@, e, s),
{
    let ghost start = cs@;
    let mut i: usize = 0;
    while i < cs.len()
        invariant
            i <= cs.len(),
            cs@.len() == start.len(),
            forall|k: int| 0 <= k < i ==> cs@[k] == with_state(start, e, s)[k],
            forall|k: int| i <= k < cs.len() ==> cs@[k] == start[k],
        decreases cs.len() - i,
    {
        if cs[i].entity == e {
            cs.set(i, Character { entity: e, state: s });
        }
        i = i + 1;
    }
    assert(cs@ =~= with_state(start, e, s));
}

/// Applies one collision event to the characters' states.
pub fn apply_event(cs: &mut Vec<Character>, ground: &Vec<u64>, ev: CollisionEvent)
    ensures
        final(cs)@ == after_event(old(cs)@, ground@, ev),
{
    match ev {
        CollisionEvent::Started(e1, e2) => {
            if let Some(c) = ground_contact(cs, ground, e1, e2) {
                set_state(cs, c, CharacterState::Grounded);
            }
        },
        CollisionEvent::Stopped(e1, e2) => {
            if let Some(c) = ground_contact(cs, ground, e1, e2) {
                set_state(cs, c, CharacterState::InAir);
            }
        },
    }
}

/// Applies the collision events of a frame, in order, to the characters'
/// states.
pub fn character_state(events: &Vec<CollisionEvent>, cs: &mut Vec<Character>, ground: &Vec<u64>)
    ensures
        final(cs)@ == after_events(old(cs)@, ground@, events@),
{
    let ghost start = cs@;
    let mut i: usize = 0;
    while i < events.len()
        invariant
            i <= events.len(),
            cs@ == after_events(start, ground@, events@.take(i as int)),
        decreases events.len() - i,
    {
        apply_event(cs, ground, events[i]);
        assert(events@.take(i as int + 1).drop_last() =~= events@.take(i as int));
        i = i + 1;
    }
    assert(events@.take(events.len() as int) =~= events@);
}

} // verus!
