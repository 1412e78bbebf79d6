use ogc_engine::pad::{
    button_pressed, controller_matches, Controller, BUTTON_A, BUTTON_B, BUTTON_DOWN, BUTTON_L,
    BUTTON_LEFT, BUTTON_MENU, BUTTON_R, BUTTON_RIGHT, BUTTON_START, BUTTON_UP, BUTTON_X, BUTTON_Y,
    BUTTON_Z,
};

#[test]
fn controller_channels() {
    assert_eq!(Controller::One.channel(), 0);
    assert_eq!(Controller::Two.channel(), 1);
    assert_eq!(Controller::Three.channel(), 2);
    assert_eq!(Controller::Four.channel(), 3);
}

#[test]
fn controller_matches_its_channel_word() {
    assert!(controller_matches(0, Controller::One));
    assert!(controller_matches(3, Controller::Four));
    assert!(!controller_matches(1, Controller::One));
    assert!(!controller_matches(0, Controller::Two));
}

#[test]
fn button_bits_are_distinct_masks() {
    assert_eq!(BUTTON_LEFT, 0x0001);
    assert_eq!(BUTTON_RIGHT, 0x0002);
    assert_eq!(BUTTON_DOWN, 0x0004);
    assert_eq!(BUTTON_UP, 0x0008);
    assert_eq!(BUTTON_Z, 0x0010);
    assert_eq!(BUTTON_R, 0x0020);
    assert_eq!(BUTTON_L, 0x0040);
    assert_eq!(BUTTON_A, 0x0100);
    assert_eq!(BUTTON_B, 0x0200);
    assert_eq!(BUTTON_X, 0x0400);
    assert_eq!(BUTTON_Y, 0x0800);
    // Menu and Start name the same physical button.
    assert_eq!(BUTTON_MENU, 0x1000);
    assert_eq!(BUTTON_START, BUTTON_MENU);
}

#[test]
fn button_pressed_tests_the_mask() {
    let sample = BUTTON_A | BUTTON_UP;
    assert!(button_pressed(sample, BUTTON_A));
    assert!(button_pressed(sample, BUTTON_UP));
    assert!(!button_pressed(sample, BUTTON_B));
    assert!(!button_pressed(0, BUTTON_START));
}
