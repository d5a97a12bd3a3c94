use zen::controller::{button_mask, press, release, Button};
use zen::display::{expand_color, FrameSlot, ZenState};

#[test]
fn color_expansion() {
    assert_eq!(expand_color(0b11100011), (252, 0, 255, 255));
    assert_eq!(expand_color(0), (0, 0, 0, 255));
    assert_eq!(expand_color(0b00011100), (0, 108, 0, 255));
    assert_eq!(expand_color(0b00100001), (36, 0, 85, 255));
}

#[test]
fn set_writes_one_pixel() {
    let mut pixels = vec![0u8; 160 * 144 * 4];
    zen::display::set(&mut pixels, 160, 3, 2, 0b11100011);
    let i = (3 + 2 * 160) * 4;
    assert_eq!(&pixels[i..i + 4], &[252, 0, 255, 255]);
    assert_eq!(pixels.iter().filter(|b| **b != 0).count(), 3);
}

#[test]
fn frame_slot_keeps_latest() {
    let mut slot = FrameSlot::new();
    assert!(slot.take().is_none());
    slot.put(vec![1, 2]);
    slot.put(vec![3, 4]);
    assert_eq!(slot.take(), Some(vec![3, 4]));
    assert!(slot.take().is_none());
}

#[test]
fn screen_state_takes_full_frames_only() {
    let mut z = ZenState::new(2, 1);
    assert_eq!(z.width(), 2);
    assert_eq!(z.height(), 1);
    assert_eq!(z.pixels(), &vec![0u8; 8]);
    z.update(Some(vec![9; 8]));
    assert_eq!(z.pixels(), &vec![9u8; 8]);
    z.update(Some(vec![1; 4]));
    assert_eq!(z.pixels(), &vec![9u8; 8]);
    z.update(None);
    assert_eq!(z.pixels(), &vec![9u8; 8]);
}

#[test]
fn press_and_release_share_one_table() {
    let buttons = [
        Button::A,
        Button::B,
        Button::X,
        Button::Y,
        Button::DPadLeft,
        Button::DPadRight,
        Button::DPadUp,
        Button::DPadDown,
    ];
    for (i, b) in buttons.iter().enumerate() {
        assert_eq!(button_mask(*b), 1u8 << i);
        let s = press(0b0101_0101, *b);
        assert_eq!(s, 0b0101_0101 | (1u8 << i));
        assert_eq!(release(s, *b), 0b0101_0101 & !(1u8 << i));
    }
    assert_eq!(button_mask(Button::Other), 0);
    assert_eq!(press(7, Button::Other), 7);
    assert_eq!(release(7, Button::Other), 7);
    assert_eq!(release(press(0, Button::DPadUp), Button::DPadUp), 0);
}
