use tower_game::steering::{
    chaser_flip, facing_flip, key_direction, player_flip, sign_of, tower_side, FacingPolicy, Sign,
};

#[test]
fn facing_follows_horizontal_sign() {
    assert!(facing_flip(false, Sign::Negative));
    assert!(!facing_flip(true, Sign::Positive));
    assert!(facing_flip(true, Sign::Zero));
    assert!(!facing_flip(false, Sign::Zero));
}

#[test]
fn chaser_policies_differ() {
    // target at negative x but to the right of the chaser
    assert!(chaser_flip(FacingPolicy::TargetPosition, false, Sign::Negative, Sign::Positive));
    assert!(!chaser_flip(FacingPolicy::RelativeOffset, false, Sign::Negative, Sign::Positive));
}

#[test]
fn keys_give_direction() {
    assert_eq!(key_direction(true, false, false, true), (1, 1));
    assert_eq!(key_direction(false, true, true, false), (-1, -1));
    assert_eq!(key_direction(true, true, true, true), (0, 0));
    assert_eq!(key_direction(false, false, false, false), (0, 0));
}

#[test]
fn player_faces_last_horizontal_move() {
    assert!(player_flip(false, false, true, false, false));
    assert!(!player_flip(true, false, false, false, true));
    assert!(player_flip(true, true, true, false, true));
}

#[test]
fn signs_and_tower_side() {
    assert_eq!(sign_of(-3), Sign::Negative);
    assert_eq!(sign_of(0), Sign::Zero);
    assert_eq!(sign_of(2), Sign::Positive);
    assert_eq!(tower_side(true), 1);
    assert_eq!(tower_side(false), -1);
}
