use chip8::keypad::{KeyPress, KeypadSnapshot};

const KEYS: [KeyPress; 16] = [
    KeyPress::Key0,
    KeyPress::Key1,
    KeyPress::Key2,
    KeyPress::Key3,
    KeyPress::Key4,
    KeyPress::Key5,
    KeyPress::Key6,
    KeyPress::Key7,
    KeyPress::Key8,
    KeyPress::Key9,
    KeyPress::KeyA,
    KeyPress::KeyB,
    KeyPress::KeyC,
    KeyPress::KeyD,
    KeyPress::KeyE,
    KeyPress::KeyF,
];

#[test]
fn key_numbers_round_trip() {
    for (number, key) in KEYS.iter().enumerate() {
        assert_eq!(key.index(), number as u8);
        assert_eq!(KeyPress::from_index(number as u8), *key);
    }
}

#[test]
fn host_key_codes_map_to_the_keypad() {
    let layout = [
        ('1', KeyPress::Key1), ('2', KeyPress::Key2), ('3', KeyPress::Key3), ('4', KeyPress::KeyC),
        ('q', KeyPress::Key4), ('w', KeyPress::Key5), ('e', KeyPress::Key6), ('r', KeyPress::KeyD),
        ('a', KeyPress::Key7), ('s', KeyPress::Key8), ('d', KeyPress::Key9), ('f', KeyPress::KeyE),
        ('z', KeyPress::KeyA), ('x', KeyPress::Key0), ('c', KeyPress::KeyB), ('v', KeyPress::KeyF),
    ];
    for (letter, key) in layout {
        assert_eq!(KeyPress::from_sdl_key(letter as i32), Some(key));
    }
}

#[test]
fn other_host_key_codes_map_to_nothing() {
    let mapped = "1234qwerasdfzxcv";
    for code in -300..300 {
        let is_mapped = (0..128).contains(&code) && mapped.contains(code as u8 as char);
        assert_eq!(KeyPress::from_sdl_key(code).is_some(), is_mapped, "code {}", code);
    }
    // Escape, upper-case letters, keypad digits.
    assert_eq!(KeyPress::from_sdl_key(27), None);
    assert_eq!(KeyPress::from_sdl_key('X' as i32), None);
    assert_eq!(KeyPress::from_sdl_key(0x4000_0059), None);
    assert_eq!(KeyPress::from_sdl_key(i32::MIN), None);
}

#[test]
fn press_and_release() {
    let mut keys = KeypadSnapshot::new();
    for key in KEYS {
        assert!(!keys.is_pressed(key));
    }
    keys.press(KeyPress::Key3);
    keys.press(KeyPress::KeyF);
    keys.press(KeyPress::Key3);
    for key in KEYS {
        assert_eq!(keys.is_pressed(key), key == KeyPress::Key3 || key == KeyPress::KeyF);
        assert_eq!(keys.is_down(key.index()), keys.is_pressed(key));
    }
    keys.release(KeyPress::Key3);
    keys.release(KeyPress::Key0);
    for key in KEYS {
        assert_eq!(keys.is_pressed(key), key == KeyPress::KeyF);
    }
}

#[test]
fn first_pressed_is_the_lowest_number() {
    let mut keys = KeypadSnapshot::new();
    assert_eq!(keys.first_pressed(), None);
    keys.press(KeyPress::KeyF);
    assert_eq!(keys.first_pressed(), Some(15));
    keys.press(KeyPress::Key4);
    keys.press(KeyPress::Key9);
    assert_eq!(keys.first_pressed(), Some(4));
    keys.press(KeyPress::Key0);
    assert_eq!(keys.first_pressed(), Some(0));
    keys.release(KeyPress::Key0);
    keys.release(KeyPress::Key4);
    assert_eq!(keys.first_pressed(), Some(9));
}

#[test]
fn snapshot_from_an_array() {
    let mut down = [false; 16];
    down[2] = true;
    down[11] = true;
    let keys = KeypadSnapshot::from_keys(down);
    for key in KEYS {
        assert_eq!(keys.is_pressed(key), down[key.index() as usize]);
    }
    assert_eq!(keys.first_pressed(), Some(2));
}
