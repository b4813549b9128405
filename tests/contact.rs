use platformer::contact::{apply_event, character_state, ground_contact, Character, CollisionEvent};
use platformer::state::CharacterState;

const PLAYER: u64 = 7;
const STAGE: u64 = 3;
const CRATE: u64 = 11;

fn player(state: CharacterState) -> Vec<Character> {
    vec![Character { entity: PLAYER, state }]
}

#[test]
fn started_with_character_first_grounds() {
    let mut cs = player(CharacterState::InAir);
    character_state(&vec![CollisionEvent::Started(PLAYER, STAGE)], &mut cs, &vec![STAGE]);
    assert_eq!(cs[0].state, CharacterState::Grounded);
}

#[test]
fn started_with_ground_first_grounds() {
    let mut cs = player(CharacterState::InAir);
    character_state(&vec![CollisionEvent::Started(STAGE, PLAYER)], &mut cs, &vec![STAGE]);
    assert_eq!(cs[0].state, CharacterState::Grounded);
}

#[test]
fn stopped_either_order_lifts() {
    for ev in [CollisionEvent::Stopped(PLAYER, STAGE), CollisionEvent::Stopped(STAGE, PLAYER)] {
        let mut cs = player(CharacterState::Grounded);
        character_state(&vec![ev], &mut cs, &vec![STAGE]);
        assert_eq!(cs[0].state, CharacterState::InAir);
    }
}

#[test]
fn collision_without_ground_is_ignored() {
    let mut cs = player(CharacterState::InAir);
    character_state(
        &vec![CollisionEvent::Started(PLAYER, CRATE), CollisionEvent::Started(CRATE, PLAYER)],
        &mut cs,
        &vec![STAGE],
    );
    assert_eq!(cs, player(CharacterState::InAir));
    let mut cs = player(CharacterState::Grounded);
    apply_event(&mut cs, &vec![STAGE], CollisionEvent::Stopped(CRATE, PLAYER));
    assert_eq!(cs, player(CharacterState::Grounded));
}

#[test]
fn ground_without_character_is_ignored() {
    let mut cs = player(CharacterState::InAir);
    character_state(&vec![CollisionEvent::Started(CRATE, STAGE)], &mut cs, &vec![STAGE]);
    assert_eq!(cs, player(CharacterState::InAir));
}

#[test]
fn events_apply_in_order() {
    let mut cs = player(CharacterState::InAir);
    character_state(
        &vec![CollisionEvent::Started(PLAYER, STAGE), CollisionEvent::Stopped(STAGE, PLAYER)],
        &mut cs,
        &vec![STAGE],
    );
    assert_eq!(cs[0].state, CharacterState::InAir);
    character_state(
        &vec![CollisionEvent::Stopped(STAGE, PLAYER), CollisionEvent::Started(STAGE, PLAYER)],
        &mut cs,
        &vec![STAGE],
    );
    assert_eq!(cs[0].state, CharacterState::Grounded);
}

#[test]
fn only_the_touching_character_changes() {
    let mut cs = vec![
        Character { entity: PLAYER, state: CharacterState::InAir },
        Character { entity: CRATE, state: CharacterState::InAir },
    ];
    character_state(&vec![CollisionEvent::Started(STAGE, CRATE)], &mut cs, &vec![STAGE]);
    assert_eq!(cs[0].state, CharacterState::InAir);
    assert_eq!(cs[1].state, CharacterState::Grounded);
}

#[test]
fn no_events_no_change() {
    let mut cs = player(CharacterState::Grounded);
    character_state(&vec![], &mut cs, &vec![STAGE]);
    assert_eq!(cs, player(CharacterState::Grounded));
}

#[test]
fn contact_lookup_prefers_first_participant() {
    let cs = player(CharacterState::InAir);
    assert_eq!(ground_contact(&cs, &vec![STAGE], PLAYER, STAGE), Some(PLAYER));
    assert_eq!(ground_contact(&cs, &vec![STAGE], STAGE, PLAYER), Some(PLAYER));
    assert_eq!(ground_contact(&cs, &vec![STAGE], PLAYER, CRATE), None);
    assert_eq!(ground_contact(&cs, &vec![], PLAYER, STAGE), None);
}
