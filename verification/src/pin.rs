//! The lines of the bus as plain values: the level of a control line, and
//! the eight data lines that together present one byte.
use vstd::prelude::*;

verus! {

/// The level of a line.
#[derive(Clone, Copy, Debug, PartialEq, Eq, Structural)]
pub enum PinState {
    Low,
    High,
}

/// The level of a line that nothing has driven yet.
pub fn new_state() -> (r: PinState)
    ensures
        r == PinState::Low,
{
    PinState::Low
}

/// Whether data line `line` is high when the lines present `byte`.
pub open spec fn line_is_high(byte: u8, line: u8) -> bool {
    byte & (1u8 << line) != 0
}

/// One of the eight data lines: it drives one bit of the presented byte.
#[derive(Clone, Copy, Debug)]
pub struct BitPin {
    offset: u8,
}

impl BitPin {
    /// The number of the line, which is the number of the bit that it drives.
    pub closed spec fn spec_offset(&self) -> u8 {
        self.offset
    }

    #[verifier::when_used_as_spec(spec_offset)]
    pub fn offset(&self) -> (r: u8)
        ensures
            r == self.spec_offset(),
    {
        self.offset
    }

    /// The data line that drives bit `offset`.
    pub fn new(offset: u8) -> (r: BitPin)
        ensures
            r.offset() == offset,
    {
        BitPin { offset }
    }

    /// The eight data lines, from bit 0 to bit 7.
    pub fn new_group() -> (r: [BitPin; 8])
        ensures
            forall|i: int| 0 <= i < 8 ==> (#[trigger] r[i]).offset() == i,
    {
        [
            BitPin::new(0),
            BitPin::new(1),
            BitPin::new(2),
            BitPin::new(3),
            BitPin::new(4),
            BitPin::new(5),
            BitPin::new(6),
            BitPin::new(7),
        ]
    }

    /// Drives the line high: sets its bit in `byte`.
    pub fn high(&self, byte: &mut u8)
        requires
            self.offset() < 8,
        ensures
            *final(byte) == *old(byte) | (1u8 << self.offset()),
    {
        *byte = *byte | (1u8 << self.offset);
    }

    /// Drives the line low: clears its bit in `byte`.
    pub fn low(&self, byte: &mut u8)
        requires
            self.offset() < 8,
        ensures
            *final(byte) == *old(byte) & !(1u8 << self.offset()),
    {
        *byte = *byte & !(1u8 << self.offset);
    }
}

/// Driving one line sets the level of that line and of no other.
pub proof fn lemma_drive_changes_one_line(byte: u8, driven: u8, line: u8)
    by (bit_vector)
    requires
        driven < 8,
        line < 8,
    ensures
        line_is_high(byte | (1u8 << driven), line) == (line == driven || line_is_high(byte, line)),
        line_is_high(byte & !(1u8 << driven), line) == (line != driven && line_is_high(byte, line)),
{
}

proof fn lemma_bits_determine_byte(a: u8, b: u8)
    by (bit_vector)
    requires
        (a & (1u8 << 0u8) != 0) == (b & (1u8 << 0u8) != 0),
        (a & (1u8 << 1u8) != 0) == (b & (1u8 << 1u8) != 0),
        (a & (1u8 << 2u8) != 0) == (b & (1u8 << 2u8) != 0),
        (a & (1u8 << 3u8) != 0) == (b & (1u8 << 3u8) != 0),
        (a & (1u8 << 4u8) != 0) == (b & (1u8 << 4u8) != 0),
        (a & (1u8 << 5u8) != 0) == (b & (1u8 << 5u8) != 0),
        (a & (1u8 << 6u8) != 0) == (b & (1u8 << 6u8) != 0),
        (a & (1u8 << 7u8) != 0) == (b & (1u8 << 7u8) != 0),
    ensures
        a == b,
{
}

/// Two bytes that agree on the level of every line are the same byte.
pub proof fn lemma_lines_determine_byte(a: u8, b: u8)
    requires
        forall|line: u8| line < 8 ==> line_is_high(a, line) == line_is_high(b, line),
    ensures
        a == b,
{
    assert(line_is_high(a, 0) == line_is_high(b, 0));
    assert(line_is_high(a, 1) == line_is_high(b, 1));
    assert(line_is_high(a, 2) == line_is_high(b, 2));
    assert(line_is_high(a, 3) == line_is_high(b, 3));
    assert(line_is_high(a, 4) == line_is_high(b, 4));
    assert(line_is_high(a, 5) == line_is_high(b, 5));
    assert(line_is_high(a, 6) == line_is_high(b, 6));
    assert(line_is_high(a, 7) == line_is_high(b, 7));
    lemma_bits_determine_byte(a, b);
}

/// A control line that remembers the level it was last driven to.
#[derive(Clone, Copy, Debug)]
pub struct Pin {
    state: PinState,
}

impl View for Pin {
    type V = PinState;

    closed spec fn view(&self) -> PinState {
        self.state
    }
}

impl Pin {
    pub fn new(state: PinState) -> (r: Pin)
        ensures
            r@ == state,
    {
        Pin { state }
    }

    pub fn high(&mut self)
        ensures
            final(self)@ == PinState::High,
    {
        self.state = PinState::High;
    }

    pub fn low(&mut self)
        ensures
            final(self)@ == PinState::Low,
    {
        self.state = PinState::Low;
    }

    /// The level that the line is at.
    pub fn state(&self) -> (r: PinState)
        ensures
            r == self@,
    {
        self.state
    }
}

} // verus!
