use galangua::pad::{Pad, PadBit, VKey};

#[test]
fn test_trigger() {
    let mut pad = Pad::new();
    pad.on_key(VKey::Space, true);
    pad.update();

    assert_eq!(true, pad.is_pressed(PadBit::A));
    assert_eq!(true, pad.is_trigger(PadBit::A));

    pad.update();
    assert_eq!(true, pad.is_pressed(PadBit::A));
    assert_eq!(false, pad.is_trigger(PadBit::A));
}

#[test]
fn released_key_is_neither_pressed_nor_triggered() {
    let mut pad = Pad::new();
    pad.on_key(VKey::Left, true);
    pad.update();
    assert!(pad.is_pressed(PadBit::L));
    pad.on_key(VKey::Left, false);
    pad.update();
    assert!(!pad.is_pressed(PadBit::L));
    assert!(!pad.is_trigger(PadBit::L));
}

#[test]
fn joystick_axis_and_button_feed_the_pad() {
    let mut pad = Pad::new();
    pad.on_joystick_axis(0, 1);
    pad.on_joystick_button(0, true);
    pad.update();
    assert!(pad.is_pressed(PadBit::R));
    assert!(!pad.is_pressed(PadBit::L));
    assert!(pad.is_trigger(PadBit::A));
}
