use vstd::prelude::*;

verus! {

/// One key of the sixteen-key hexadecimal keypad.
#[derive(Debug, Hash, PartialEq, Eq, Clone, Copy, Structural)]
pub enum KeyPress {
    Key0,
    Key1,
    Key2,
    Key3,
    Key4,
    Key5,
    Key6,
    Key7,
    Key8,
    Key9,
    KeyA,
    KeyB,
    KeyC,
    KeyD,
    KeyE,
    KeyF,
}

/// The key with the given number, for numbers up to 15.
pub open spec fn key_of_index(value: u8) -> KeyPress {
    if value == 0 {
        KeyPress::Key0
    } else if value == 1 {
        KeyPress::Key1
    } else if value == 2 {
        KeyPress::Key2
    } else if value == 3 {
        KeyPress::Key3
    } else if value == 4 {
        KeyPress::Key4
    } else if value == 5 {
        KeyPress::Key5
    } else if value == 6 {
        KeyPress::Key6
    } else if value == 7 {
        KeyPress::Key7
    } else if value == 8 {
        KeyPress::Key8
    } else if value == 9 {
        KeyPress::Key9
    } else if value == 10 {
        KeyPress::KeyA
    } else if value == 11 {
        KeyPress::KeyB
    } else if value == 12 {
        KeyPress::KeyC
    } else if value == 13 {
        KeyPress::KeyD
    } else if value == 14 {
        KeyPress::KeyE
    } else {
        KeyPress::KeyF
    }
}

/// The key that a host key code stands for. Key codes of printable keys are
/// their lower-case ASCII codes; the left four columns of a QWERTY keyboard map
/// to the keypad:
///
/// ```text
/// 1 2 3 4        1 2 3 C
/// Q W E R   ->   4 5 6 D
/// A S D F        7 8 9 E
/// Z X C V        A 0 B F
/// ```
pub open spec fn key_of_keycode(keycode: i32) -> Option<KeyPress> {
    if keycode == 120 {
        Some(KeyPress::Key0)
    } else if keycode == 49 {
        Some(KeyPress::Key1)
    } else if keycode == 50 {
        Some(KeyPress::Key2)
    } else if keycode == 51 {
        Some(KeyPress::Key3)
    } else if keycode == 113 {
        Some(KeyPress::Key4)
    } else if keycode == 119 {
        Some(KeyPress::Key5)
    } else if keycode == 101 {
        Some(KeyPress::Key6)
    } else if keycode == 97 {
        Some(KeyPress::Key7)
    } else if keycode == 115 {
        Some(KeyPress::Key8)
    } else if keycode == 100 {
        Some(KeyPress::Key9)
    } else if keycode == 122 {
        Some(KeyPress::KeyA)
    } else if keycode == 99 {
        Some(KeyPress::KeyB)
    } else if keycode == 52 {
        Some(KeyPress::KeyC)
    } else if keycode == 114 {
        Some(KeyPress::KeyD)
    } else if keycode == 102 {
        Some(KeyPress::KeyE)
    } else if keycode == 118 {
        Some(KeyPress::KeyF)
    } else {
        None
    }
}

impl KeyPress {
    /// The number of the key, 0 to 15.
    pub open spec fn index_spec(self) -> u8 {
        match self {
            KeyPress::Key0 => 0,
            KeyPress::Key1 => 1,
            KeyPress::Key2 => 2,
            KeyPress::Key3 => 3,
            KeyPress::Key4 => 4,
            KeyPress::Key5 => 5,
            KeyPress::Key6 => 6,
            KeyPress::Key7 => 7,
            KeyPress::Key8 => 8,
            KeyPress::Key9 => 9,
            KeyPress::KeyA => 10,
            KeyPress::KeyB => 11,
            KeyPress::KeyC => 12,
            KeyPress::KeyD => 13,
            KeyPress::KeyE => 14,
            KeyPress::KeyF => 15,
        }
    }

    /// The number of the key, 0 to 15.
    pub fn index(&self) -> (value: u8)
        ensures
            value == self.index_spec(),
            value < 16,
            key_of_index(value) == *self,
    {
        match self {
            KeyPress::Key0 => 0,
            KeyPress::Key1 => 1,
            KeyPress::Key2 => 2,
            KeyPress::Key3 => 3,
            KeyPress::Key4 => 4,
            KeyPress::Key5 => 5,
            KeyPress::Key6 => 6,
            KeyPress::Key7 => 7,
            KeyPress::Key8 => 8,
            KeyPress::Key9 => 9,
            KeyPress::KeyA => 10,
            KeyPress::KeyB => 11,
            KeyPress::KeyC => 12,
            KeyPress::KeyD => 13,
            KeyPress::KeyE => 14,
            KeyPress::KeyF => 15,
        }
    }

    /// The key with the given number. Only the numbers 0 to 15 name a key.
    pub fn from_index(value: u8) -> (key: KeyPress)
        requires
            value <= 15,
        ensures
            key == key_of_index(value),
            key.index_spec() == value,
    {
        match value {
            0 => KeyPress::Key0,
            1 => KeyPress::Key1,
            2 => KeyPress::Key2,
            3 => KeyPress::Key3,
            4 => KeyPress::Key4,
            5 => KeyPress::Key5,
            6 => KeyPress::Key6,
            7 => KeyPress::Key7,
            8 => KeyPress::Key8,
            9 => KeyPress::Key9,
            10 => KeyPress::KeyA,
            11 => KeyPress::KeyB,
            12 => KeyPress::KeyC,
            13 => KeyPress::KeyD,
            14 => KeyPress::KeyE,
            _ => KeyPress::KeyF,
        }
    }

    /// The key that a host key code stands for, if any.
    pub fn from_sdl_key(keycode: i32) -> (key: Option<KeyPress>)
        ensures
            key == key_of_keycode(keycode),
    {
        match keycode {
            120 => Some(KeyPress::Key0),
            49 => Some(KeyPress::Key1),
            50 => Some(KeyPress::Key2),
            51 => Some(KeyPress::Key3),
            113 => Some(KeyPress::Key4),
            119 => Some(KeyPress::Key5),
            101 => Some(KeyPress::Key6),
            97 => Some(KeyPress::Key7),
            115 => Some(KeyPress::Key8),
            100 => Some(KeyPress::Key9),
            122 => Some(KeyPress::KeyA),
            99 => Some(KeyPress::KeyB),
            52 => Some(KeyPress::KeyC),
            114 => Some(KeyPress::KeyD),
            102 => Some(KeyPress::KeyE),
            118 => Some(KeyPress::KeyF),
            _ => None,
        }
    }
}

/// The lowest-numbered key at or after `start` that is held down, if any.
pub open spec fn first_pressed_from(keys: Seq<bool>, start: int) -> Option<u8>
    decreases 16 - start,
{
    if start < 0 || start >= 16 {
        None
    } else if keys[start] {
        Some(start as u8)
    } else {
        first_pressed_from(keys, start + 1)
    }
}

/// The lowest-numbered key that is held down, if any.
pub open spec fn first_pressed(keys: Seq<bool>) -> Option<u8> {
    first_pressed_from(keys, 0)
}

/// `first_pressed` names a key that is down and below which none is, and is
/// `None` only where no key is down.
pub proof fn lemma_first_pressed(keys: Seq<bool>, start: int)
    requires
        keys.len() == 16,
        0 <= start <= 16,
    ensures
        match first_pressed_from(keys, start) {
            Some(k) => start <= k < 16 && keys[k as int] && forall|j: int|
                start <= j < k ==> !keys[j],
            None => forall|j: int| start <= j < 16 ==> !keys[j],
        },
    decreases 16 - start,
{
    if start < 16 && !keys[start] {
        lemma_first_pressed(keys, start + 1);
    }
}

/// Which of the sixteen keys are held down at one moment.
#[derive(Debug, Clone, Copy)]
pub struct KeypadSnapshot {
    keys: [bool; 16],
}

impl View for KeypadSnapshot {
    type V = Seq<bool>;

    closed spec fn view(&self) -> Seq<bool> {
        self.keys@
    }
}

impl KeypadSnapshot {
    /// A snapshot always holds sixteen keys.
    pub proof fn lemma_size(&self)
        ensures
            self@.len() == 16,
    {
    }

    /// A snapshot with no key held down.
    pub fn new() -> (pad: KeypadSnapshot)
        ensures
            pad@ == Seq::new(16, |k: int| false),
    {
        let pad = KeypadSnapshot { keys: [false; 16] };
        assert(pad@ =~= Seq::new(16, |k: int| false));
        pad
    }

    /// A snapshot from the state of each key, by key number.
    pub fn from_keys(keys: [bool; 16]) -> (pad: KeypadSnapshot)
        ensures
            pad@ == keys@,
    {
        KeypadSnapshot { keys }
    }

    /// Marks a key as held down.
    pub fn press(&mut self, key: KeyPress)
        ensures
            final(self)@ == old(self)@.update(key.index_spec() as int, true),
    {
        let k = key.index();
        self.keys[k as usize] = true;
    }

    /// Marks a key as released.
    pub fn release(&mut self, key: KeyPress)
        ensures
            final(self)@ == old(self)@.update(key.index_spec() as int, false),
    {
        let k = key.index();
        self.keys[k as usize] = false;
    }

    /// Whether a key is held down.
    pub fn is_pressed(&self, key: KeyPress) -> (down: bool)
        ensures
            down == self@[key.index_spec() as int],
    {
        let k = key.index();
        self.keys[k as usize]
    }

    /// Whether the key with the given number is held down.
    pub fn is_down(&self, index: u8) -> (down: bool)
        requires
            index < 16,
        ensures
            down == self@[index as int],
    {
        self.keys[index as usize]
    }

    /// The lowest-numbered key that is held down, if any.
    pub fn first_pressed(&self) -> (key: Option<u8>)
        ensures
            key == first_pressed(self@),
    {
        let mut found: Option<u8> = None;
        let mut k: u8 = 16;
        while k > 0
            invariant
                k <= 16,
                found == first_pressed_from(self@, k as int),
            decreases k,
        {
            k -= 1;
            if self.keys[k as usize] {
                found = Some(k);
            }
        }
        found
    }
}

} // verus!
