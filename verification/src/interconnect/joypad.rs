use vstd::prelude::*;

verus! {

/// The eight buttons of the DMG.
#[derive(Clone, Copy, Debug, PartialEq, Eq, Structural)]
pub enum Key {
    Right,
    Left,
    Up,
    Down,
    A,
    B,
    Select,
    Start,
}

impl Key {
    /// The bit of this key in the key matrix: the four directions in the
    /// low nibble, the four buttons in the high nibble.
    pub open spec fn spec_mask(self) -> u8 {
        match self {
            Key::Right => 0x01,
            Key::Left => 0x02,
            Key::Up => 0x04,
            Key::Down => 0x08,
            Key::A => 0x10,
            Key::B => 0x20,
            Key::Select => 0x40,
            Key::Start => 0x80,
        }
    }

    pub fn mask(&self) -> (m: u8)
        ensures
            m == self.spec_mask(),
    {
        match self {
            Key::Right => 0x01,
            Key::Left => 0x02,
            Key::Up => 0x04,
            Key::Down => 0x08,
            Key::A => 0x10,
            Key::B => 0x20,
            Key::Select => 0x40,
            Key::Start => 0x80,
        }
    }
}

/// The P1 register: a key matrix in which a pressed key is a cleared bit,
/// and the selection bits last written by the CPU.
#[derive(Debug)]
pub struct Joypad {
    pub matrix: u8,
    pub select: u8,
}

impl Joypad {
    pub fn init() -> (j: Joypad)
        ensures
            j.matrix == 0xFF,
            j.select == 0,
    {
        Joypad { matrix: 0xFF, select: 0 }
    }

    /// Whether `key` is held down.
    pub open spec fn pressed(self, key: Key) -> bool {
        self.matrix & key.spec_mask() == 0
    }

    pub fn key_down(&mut self, key: Key)
        ensures
            final(self).matrix == old(self).matrix & !key.spec_mask(),
            final(self).select == old(self).select,
    {
        self.matrix = self.matrix & !key.mask();
    }

    pub fn key_up(&mut self, key: Key)
        ensures
            final(self).matrix == old(self).matrix | key.spec_mask(),
            final(self).select == old(self).select,
    {
        self.matrix = self.matrix | key.mask();
    }

    /// The value of P1: the selection bits, with the direction row when
    /// bit 4 is clear, else the button row when bit 5 is clear.
    pub open spec fn spec_read(self) -> u8 {
        if self.select & 0x10 == 0 {
            self.select | (self.matrix & 0x0F)
        } else if self.select & 0x20 == 0 {
            self.select | (self.matrix >> 4u8)
        } else {
            self.select
        }
    }

    pub fn read(&self) -> (v: u8)
        ensures
            v == self.spec_read(),
    {
        if self.select & 0x10 == 0 {
            self.select | (self.matrix & 0x0F)
        } else if self.select & 0x20 == 0 {
            self.select | (self.matrix >> 4u8)
        } else {
            self.select
        }
    }

    pub fn write(&mut self, value: u8)
        ensures
            final(self).select == value,
            final(self).matrix == old(self).matrix,
    {
        self.select = value;
    }
}

/// Pressing a key holds it down and leaves every other key as it was.
pub proof fn lemma_key_down_presses(j: Joypad, key: Key, other: Key)
    ensures
        (Joypad { matrix: j.matrix & !key.spec_mask(), ..j }).pressed(key),
        other != key ==> (Joypad { matrix: j.matrix & !key.spec_mask(), ..j }).pressed(other)
            == j.pressed(other),
{
    let m = j.matrix;
    let k = key.spec_mask();
    let o = other.spec_mask();
    assert(m & !k & k == 0) by (bit_vector);
    if other != key {
        assert(o != k && (o == 1 || o == 2 || o == 4 || o == 8 || o == 16 || o == 32 || o == 64
            || o == 128) && (k == 1 || k == 2 || k == 4 || k == 8 || k == 16 || k == 32 || k == 64
            || k == 128));
        assert((o != k && (o == 1 || o == 2 || o == 4 || o == 8 || o == 16 || o == 32 || o == 64
            || o == 128) && (k == 1 || k == 2 || k == 4 || k == 8 || k == 16 || k == 32 || k == 64
            || k == 128)) ==> ((m & !k & o == 0) == (m & o == 0))) by (bit_vector);
    }
}

/// Releasing a key lets it go and leaves every other key as it was.
pub proof fn lemma_key_up_releases(j: Joypad, key: Key, other: Key)
    ensures
        !(Joypad { matrix: j.matrix | key.spec_mask(), ..j }).pressed(key),
        other != key ==> (Joypad { matrix: j.matrix | key.spec_mask(), ..j }).pressed(other)
            == j.pressed(other),
{
    let m = j.matrix;
    let k = key.spec_mask();
    let o = other.spec_mask();
    assert(k == 1 || k == 2 || k == 4 || k == 8 || k == 16 || k == 32 || k == 64 || k == 128);
    assert((k == 1 || k == 2 || k == 4 || k == 8 || k == 16 || k == 32 || k == 64 || k == 128)
        ==> (m | k) & k != 0) by (bit_vector);
    if other != key {
        assert(o != k && (o == 1 || o == 2 || o == 4 || o == 8 || o == 16 || o == 32 || o == 64
            || o == 128));
        assert((o != k && (o == 1 || o == 2 || o == 4 || o == 8 || o == 16 || o == 32 || o == 64
            || o == 128) && (k == 1 || k == 2 || k == 4 || k == 8 || k == 16 || k == 32 || k == 64
            || k == 128)) ==> (((m | k) & o == 0) == (m & o == 0))) by (bit_vector);
    }
}

/// Each key owns one line of P1: with the direction row selected (bit 4
/// of the selection clear) and the low selection bits clear, bits 0..3 of
/// P1 read 0 exactly while Right, Left, Up and Down are held; with the
/// button row selected instead (bit 4 set, bit 5 clear), exactly while A,
/// B, Select and Start are held.
pub proof fn lemma_p1_lines(j: Joypad)
    ensures
        j.select & 0x1F == 0 ==> {
            &&& (j.spec_read() & 0x01 == 0) == j.pressed(Key::Right)
            &&& (j.spec_read() & 0x02 == 0) == j.pressed(Key::Left)
            &&& (j.spec_read() & 0x04 == 0) == j.pressed(Key::Up)
            &&& (j.spec_read() & 0x08 == 0) == j.pressed(Key::Down)
        },
        j.select & 0x3F == 0x10 ==> {
            &&& (j.spec_read() & 0x01 == 0) == j.pressed(Key::A)
            &&& (j.spec_read() & 0x02 == 0) == j.pressed(Key::B)
            &&& (j.spec_read() & 0x04 == 0) == j.pressed(Key::Select)
            &&& (j.spec_read() & 0x08 == 0) == j.pressed(Key::Start)
        },
{
    let s = j.select;
    let m = j.matrix;
    assert(s & 0x1F == 0 ==> s & 0x10 == 0) by (bit_vector);
    assert(s & 0x3F == 0x10 ==> (s & 0x10 != 0 && s & 0x20 == 0)) by (bit_vector);
    assert(s & 0x1F == 0 ==> {
        &&& ((s | (m & 0x0F)) & 0x01 == 0) == (m & 0x01 == 0)
        &&& ((s | (m & 0x0F)) & 0x02 == 0) == (m & 0x02 == 0)
        &&& ((s | (m & 0x0F)) & 0x04 == 0) == (m & 0x04 == 0)
        &&& ((s | (m & 0x0F)) & 0x08 == 0) == (m & 0x08 == 0)
    }) by (bit_vector);
    assert(s & 0x3F == 0x10 ==> {
        &&& ((s | (m >> 4u8)) & 0x01 == 0) == (m & 0x10 == 0)
        &&& ((s | (m >> 4u8)) & 0x02 == 0) == (m & 0x20 == 0)
        &&& ((s | (m >> 4u8)) & 0x04 == 0) == (m & 0x40 == 0)
        &&& ((s | (m >> 4u8)) & 0x08 == 0) == (m & 0x80 == 0)
    }) by (bit_vector);
}

} // verus!
