//! The eight hardware keys of the device and the bitfield that reports
//! which of them are held down.

use vstd::prelude::*;

verus! {

/// One of the eight keys on the device. Each key owns a fixed bit in the
/// key-state bitfield shared by key-state decode and key-control encode.
#[derive(Clone, Copy, Debug, PartialEq, Eq, Structural)]
pub enum Key {
    Up,
    Down,
    Left,
    Right,
    Shift,
    Play,
    Option,
    Edit,
}

impl Key {
    pub const UP: u8 = 0x40;

    pub const DOWN: u8 = 0x20;

    pub const LEFT: u8 = 0x80;

    pub const RIGHT: u8 = 0x04;

    pub const SHIFT: u8 = 0x10;

    pub const PLAY: u8 = 0x08;

    pub const OPTION: u8 = 0x02;

    pub const EDIT: u8 = 0x01;

    /// The reserved combination of all four directional keys at once.
    pub const UP_DOWN_LEFT_RIGHT: u8 = Key::UP + Key::DOWN + Key::LEFT + Key::RIGHT;

    /// The bit this key occupies in the key-state bitfield.
    pub open spec fn as_byte(self) -> u8 {
        match self {
            Key::Up => Key::UP,
            Key::Down => Key::DOWN,
            Key::Left => Key::LEFT,
            Key::Right => Key::RIGHT,
            Key::Shift => Key::SHIFT,
            Key::Play => Key::PLAY,
            Key::Option => Key::OPTION,
            Key::Edit => Key::EDIT,
        }
    }

    pub fn to_byte(&self) -> (b: u8)
        ensures
            b == self.as_byte(),
    {
        match self {
            Key::Up => Key::UP,
            Key::Down => Key::DOWN,
            Key::Left => Key::LEFT,
            Key::Right => Key::RIGHT,
            Key::Shift => Key::SHIFT,
            Key::Play => Key::PLAY,
            Key::Option => Key::OPTION,
            Key::Edit => Key::EDIT,
        }
    }

    /// The key whose bit is exactly `byte`, if `byte` is a single key bit.
    pub open spec fn spec_from_byte(byte: u8) -> Option<Key> {
        if byte == Key::UP {
            Some(Key::Up)
        } else if byte == Key::DOWN {
            Some(Key::Down)
        } else if byte == Key::LEFT {
            Some(Key::Left)
        } else if byte == Key::RIGHT {
            Some(Key::Right)
        } else if byte == Key::SHIFT {
            Some(Key::Shift)
        } else if byte == Key::PLAY {
            Some(Key::Play)
        } else if byte == Key::OPTION {
            Some(Key::Option)
        } else if byte == Key::EDIT {
            Some(Key::Edit)
        } else {
            None
        }
    }

    pub fn from_byte(byte: u8) -> (r: Option<Key>)
        ensures
            r == Key::spec_from_byte(byte),
            r matches Some(k) ==> k.as_byte() == byte,
    {
        if byte == Key::UP {
            Some(Key::Up)
        } else if byte == Key::DOWN {
            Some(Key::Down)
        } else if byte == Key::LEFT {
            Some(Key::Left)
        } else if byte == Key::RIGHT {
            Some(Key::Right)
        } else if byte == Key::SHIFT {
            Some(Key::Shift)
        } else if byte == Key::PLAY {
            Some(Key::Play)
        } else if byte == Key::OPTION {
            Some(Key::Option)
        } else if byte == Key::EDIT {
            Some(Key::Edit)
        } else {
            None
        }
    }

    /// Every key, in the fixed order used when scanning a state change.
    pub fn all_keys() -> (r: Vec<Key>)
        ensures
            r@ == seq![
                Key::Up,
                Key::Down,
                Key::Left,
                Key::Right,
                Key::Shift,
                Key::Play,
                Key::Option,
                Key::Edit,
            ],
    {
        let mut v: Vec<Key> = Vec::new();
        v.push(Key::Up);
        v.push(Key::Down);
        v.push(Key::Left);
        v.push(Key::Right);
        v.push(Key::Shift);
        v.push(Key::Play);
        v.push(Key::Option);
        v.push(Key::Edit);
        assert(v@ =~= seq![
            Key::Up,
            Key::Down,
            Key::Left,
            Key::Right,
            Key::Shift,
            Key::Play,
            Key::Option,
            Key::Edit,
        ]);
        v
    }
}

/// The bit of every key is one of the eight powers of two, and the bits of
/// two keys coincide only for the same key.
pub proof fn lemma_key_bits_distinct(k: Key, j: Key)
    ensures
        (k.as_byte() == j.as_byte()) == (k == j),
{
}

/// Reading a key's own bit back from its byte yields that key.
pub proof fn lemma_key_byte_round_trip(k: Key)
    ensures
        Key::spec_from_byte(k.as_byte()) == Some(k),
{
}

/// A key state holding exactly one key's bit reports that key pressed and
/// every other key released.
pub proof fn lemma_single_key_state(k: Key, j: Key)
    ensures
        ((k.as_byte() & j.as_byte()) != 0) == (k == j),
{
    let a = k.as_byte();
    let b = j.as_byte();
    if k == j {
        assert((a & b) != 0) by (bit_vector)
            requires
                a == b,
                a == 1 || a == 2 || a == 4 || a == 8 || a == 16 || a == 32 || a == 64 || a == 128,
        ;
    } else {
        lemma_key_bits_distinct(k, j);
        assert((a & b) == 0) by (bit_vector)
            requires
                a != b,
                a == 1 || a == 2 || a == 4 || a == 8 || a == 16 || a == 32 || a == 64 || a == 128,
                b == 1 || b == 2 || b == 4 || b == 8 || b == 16 || b == 32 || b == 64 || b == 128,
        ;
    }
}

/// Setting a key changes exactly that key's reading to the given value and
/// leaves every other key's reading as it was.
pub proof fn lemma_set_pressed_effect(bits: u8, k: Key, j: Key, pressed: bool)
    ensures
        pressed ==> (((bits | k.as_byte()) & j.as_byte()) != 0) == (k == j || (bits & j.as_byte())
            != 0),
        !pressed ==> (((bits & !k.as_byte()) & j.as_byte()) != 0) == (k != j && (bits
            & j.as_byte()) != 0),
{
    let a = k.as_byte();
    let b = j.as_byte();
    lemma_key_bits_distinct(k, j);
    lemma_single_key_state(k, j);
    if k == j {
        assert(((bits | a) & b) != 0) by (bit_vector)
            requires
                a == b,
                a == 1 || a == 2 || a == 4 || a == 8 || a == 16 || a == 32 || a == 64 || a == 128,
        ;
        assert(((bits & !a) & b) == 0) by (bit_vector)
            requires
                a == b,
        ;
    } else {
        assert((((bits | a) & b) != 0) == ((bits & b) != 0)) by (bit_vector)
            requires
                (a & b) == 0,
        ;
        assert((((bits & !a) & b) != 0) == ((bits & b) != 0)) by (bit_vector)
            requires
                (a & b) == 0,
        ;
    }
}

/// The pressed state of all eight keys, as the device reports it: one byte,
/// one bit per key. Its view is that byte.
#[derive(Clone, Debug, PartialEq, Eq, Structural)]
pub struct KeyState {
    bitfield: u8,
}

impl View for KeyState {
    type V = u8;

    closed spec fn view(&self) -> u8 {
        self.bitfield
    }
}

impl KeyState {
    pub fn new(bitfield: u8) -> (r: KeyState)
        ensures
            r@ == bitfield,
    {
        KeyState { bitfield }
    }

    pub fn to_byte(&self) -> (b: u8)
        ensures
            b == self@,
    {
        self.bitfield
    }

    /// True when the state is exactly the four directional keys held at
    /// once. On real hardware this combination switches the device into a
    /// view during which it stops sending draw commands, so callers must
    /// special-case it rather than expect regular polling to continue.
    pub fn is_easter_egg(&self) -> (r: bool)
        ensures
            r == (self@ == Key::UP_DOWN_LEFT_RIGHT),
    {
        self.bitfield == Key::UP_DOWN_LEFT_RIGHT
    }

    pub fn is_pressed(&self, key: &Key) -> (r: bool)
        ensures
            r == ((self@ & key.as_byte()) != 0),
    {
        (self.bitfield & key.to_byte()) != 0
    }

    pub fn set_pressed(&mut self, key: &Key, pressed: bool)
        ensures
            pressed ==> final(self)@ == (old(self)@ | key.as_byte()),
            !pressed ==> final(self)@ == (old(self)@ & !key.as_byte()),
    {
        if pressed {
            self.bitfield = self.bitfield | key.to_byte();
        } else {
            self.bitfield = self.bitfield & !key.to_byte();
        }
    }
}

impl Default for KeyState {
    /// The state with no key pressed.
    fn default() -> (r: KeyState)
        ensures
            r@ == 0u8,
    {
        KeyState { bitfield: 0 }
    }
}

} // verus!
