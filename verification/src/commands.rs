//! The instruction encoding of the controller: the nine categories of command
//! bytes, the fields that each category carries, and the decoder that turns a
//! byte into an [`Instruction`].
use vstd::prelude::*;

verus! {

/// A direction of movement along a line.
#[derive(Clone, Copy, Debug, PartialEq, Eq, Structural)]
pub enum Direction {
    Left,
    Right,
}

/// The direction in which text is entered.
#[derive(Clone, Copy, Debug, PartialEq, Eq, Structural)]
pub enum TextDirection {
    LeftToRight,
    RightToLeft,
}

/// The number of display lines that a function-set command announces.
#[derive(Clone, Copy, Debug, PartialEq, Eq, Structural)]
pub enum LineCount {
    One,
    Two,
}

/// The character cell that a function-set command announces.
#[derive(Clone, Copy, Debug, PartialEq, Eq, Structural)]
pub enum CharacterGrid {
    C5x8,
    C5x10,
}

/// Whether `byte` has the bit of the given weight (1, 2, 4, ..., 128) set.
pub open spec fn has_bit(byte: u8, weight: u8) -> bool {
    (byte / weight) % 2 == 1
}

/// Masking with a single bit tests that bit.
proof fn lemma_mask_tests_bit(byte: u8)
    by (bit_vector)
    ensures
        (byte & 0b0000_0001 != 0) == ((byte / 1) % 2 == 1),
        (byte & 0b0000_0010 != 0) == ((byte / 2) % 2 == 1),
        (byte & 0b0000_0100 != 0) == ((byte / 4) % 2 == 1),
        (byte & 0b0000_1000 != 0) == ((byte / 8) % 2 == 1),
        (byte & 0b0001_0000 != 0) == ((byte / 16) % 2 == 1),
{
}

impl Direction {
    /// The opposite direction.
    pub open spec fn spec_switch(self) -> Direction {
        match self {
            Direction::Left => Direction::Right,
            Direction::Right => Direction::Left,
        }
    }

    /// The direction that a shift command carries: bit 2 set means right.
    pub open spec fn spec_from_u8(data: u8) -> Direction {
        if has_bit(data, 4) {
            Direction::Right
        } else {
            Direction::Left
        }
    }

    #[verifier::when_used_as_spec(spec_switch)]
    pub fn switch(self) -> (r: Direction)
        ensures
            r == self.spec_switch(),
    {
        match self {
            Direction::Left => Direction::Right,
            Direction::Right => Direction::Left,
        }
    }

    #[verifier::when_used_as_spec(spec_from_u8)]
    pub fn from_u8(data: u8) -> (r: Direction)
        ensures
            r == Direction::spec_from_u8(data),
    {
        proof {
            lemma_mask_tests_bit(data);
        }
        if (data & 0b0000_0100) != 0 {
            Direction::Right
        } else {
            Direction::Left
        }
    }
}

impl TextDirection {
    /// The way the address counter moves after a write.
    pub open spec fn spec_direction(self) -> Direction {
        match self {
            TextDirection::LeftToRight => Direction::Right,
            TextDirection::RightToLeft => Direction::Left,
        }
    }

    /// The text direction that an entry-mode command carries: bit 1 set
    /// means that the address counter increments, so text runs left to right.
    pub open spec fn spec_from_u8(data: u8) -> TextDirection {
        if has_bit(data, 2) {
            TextDirection::LeftToRight
        } else {
            TextDirection::RightToLeft
        }
    }

    #[verifier::when_used_as_spec(spec_direction)]
    pub fn direction(self) -> (r: Direction)
        ensures
            r == self.spec_direction(),
    {
        match self {
            TextDirection::LeftToRight => Direction::Right,
            TextDirection::RightToLeft => Direction::Left,
        }
    }

    #[verifier::when_used_as_spec(spec_from_u8)]
    pub fn from_u8(data: u8) -> (r: TextDirection)
        ensures
            r == TextDirection::spec_from_u8(data),
    {
        proof {
            lemma_mask_tests_bit(data);
        }
        if (data & 0b0000_0010) != 0 {
            TextDirection::LeftToRight
        } else {
            TextDirection::RightToLeft
        }
    }
}

impl LineCount {
    /// The line count that a function-set command carries: bit 3 set means two.
    pub open spec fn spec_from_u8(data: u8) -> LineCount {
        if has_bit(data, 8) {
            LineCount::Two
        } else {
            LineCount::One
        }
    }

    #[verifier::when_used_as_spec(spec_from_u8)]
    pub fn from_u8(data: u8) -> (r: LineCount)
        ensures
            r == LineCount::spec_from_u8(data),
    {
        proof {
            lemma_mask_tests_bit(data);
        }
        if (data & 0b0000_1000) != 0 {
            LineCount::Two
        } else {
            LineCount::One
        }
    }
}

impl CharacterGrid {
    /// The cell that a function-set command carries: bit 2 set means the tall one.
    pub open spec fn spec_from_u8(data: u8) -> CharacterGrid {
        if has_bit(data, 4) {
            CharacterGrid::C5x10
        } else {
            CharacterGrid::C5x8
        }
    }

    #[verifier::when_used_as_spec(spec_from_u8)]
    pub fn from_u8(data: u8) -> (r: CharacterGrid)
        ensures
            r == CharacterGrid::spec_from_u8(data),
    {
        proof {
            lemma_mask_tests_bit(data);
        }
        if (data & 0b0000_0100) != 0 {
            CharacterGrid::C5x10
        } else {
            CharacterGrid::C5x8
        }
    }
}

/// The nine categories of command bytes, in the order of the encoding table.
#[derive(Clone, Copy, Debug, PartialEq, Eq, Structural)]
pub enum Category {
    NoOp,
    Clear,
    ReturnHome,
    EntryModeSet,
    DisplayControl,
    Shift,
    FunctionSet,
    SetCgramAddress,
    SetDdramAddress,
}

impl Category {
    /// The row of the encoding table for this category: the bytes it covers.
    pub open spec fn admits(self, byte: u8) -> bool {
        match self {
            Category::NoOp => byte == 0b0000_0000,
            Category::Clear => byte == 0b0000_0001,
            Category::ReturnHome => 0b0000_0010 <= byte <= 0b0000_0011,
            Category::EntryModeSet => 0b0000_0100 <= byte <= 0b0000_0111,
            Category::DisplayControl => 0b0000_1000 <= byte <= 0b0000_1111,
            Category::Shift => 0b0001_0000 <= byte <= 0b0001_1111,
            Category::FunctionSet => 0b0010_0000 <= byte <= 0b0011_1111,
            Category::SetCgramAddress => 0b0100_0000 <= byte <= 0b0111_1111,
            Category::SetDdramAddress => 0b1000_0000 <= byte,
        }
    }

    /// The bits that the category's pattern fixes: its leading one and every
    /// bit above it.
    pub open spec fn fixed_bits(self) -> u8 {
        match self {
            Category::NoOp => 0b1111_1111,
            Category::Clear => 0b1111_1111,
            Category::ReturnHome => 0b1111_1110,
            Category::EntryModeSet => 0b1111_1100,
            Category::DisplayControl => 0b1111_1000,
            Category::Shift => 0b1111_0000,
            Category::FunctionSet => 0b1110_0000,
            Category::SetCgramAddress => 0b1100_0000,
            Category::SetDdramAddress => 0b1000_0000,
        }
    }

    /// The value of the fixed bits: the leading one alone, or nothing.
    pub open spec fn leading_bit(self) -> u8 {
        match self {
            Category::NoOp => 0b0000_0000,
            Category::Clear => 0b0000_0001,
            Category::ReturnHome => 0b0000_0010,
            Category::EntryModeSet => 0b0000_0100,
            Category::DisplayControl => 0b0000_1000,
            Category::Shift => 0b0001_0000,
            Category::FunctionSet => 0b0010_0000,
            Category::SetCgramAddress => 0b0100_0000,
            Category::SetDdramAddress => 0b1000_0000,
        }
    }

    /// The category of a command byte, found from its highest set bit.
    pub open spec fn spec_of(byte: u8) -> Category {
        if byte >= 0b1000_0000 {
            Category::SetDdramAddress
        } else if byte >= 0b0100_0000 {
            Category::SetCgramAddress
        } else if byte >= 0b0010_0000 {
            Category::FunctionSet
        } else if byte >= 0b0001_0000 {
            Category::Shift
        } else if byte >= 0b0000_1000 {
            Category::DisplayControl
        } else if byte >= 0b0000_0100 {
            Category::EntryModeSet
        } else if byte >= 0b0000_0010 {
            Category::ReturnHome
        } else if byte == 0b0000_0001 {
            Category::Clear
        } else {
            Category::NoOp
        }
    }

    /// Classifies a command byte.
    #[verifier::when_used_as_spec(spec_of)]
    pub fn of(byte: u8) -> (r: Category)
        ensures
            r == Category::spec_of(byte),
            r.admits(byte),
    {
        match byte {
            0b0000_0000 => Category::NoOp,
            0b0000_0001 => Category::Clear,
            0b0000_0010..=0b0000_0011 => Category::ReturnHome,
            0b0000_0100..=0b0000_0111 => Category::EntryModeSet,
            0b0000_1000..=0b0000_1111 => Category::DisplayControl,
            0b0001_0000..=0b0001_1111 => Category::Shift,
            0b0010_0000..=0b0011_1111 => Category::FunctionSet,
            0b0100_0000..=0b0111_1111 => Category::SetCgramAddress,
            0b1000_0000..=0b1111_1111 => Category::SetDdramAddress,
        }
    }
}

/// The encoding table is total and its rows do not overlap: every byte
/// belongs to exactly one category, the one that the decoder selects.
pub proof fn lemma_exactly_one_category(byte: u8)
    ensures
        Category::spec_of(byte).admits(byte),
        forall|c: Category| c.admits(byte) ==> c == Category::spec_of(byte),
{
}

proof fn lemma_patterns(byte: u8)
    by (bit_vector)
    ensures
        (byte & 0b1111_1111 == 0b0000_0000) == (byte == 0b0000_0000),
        (byte & 0b1111_1111 == 0b0000_0001) == (byte == 0b0000_0001),
        (byte & 0b1111_1110 == 0b0000_0010) == (0b0000_0010 <= byte && byte <= 0b0000_0011),
        (byte & 0b1111_1100 == 0b0000_0100) == (0b0000_0100 <= byte && byte <= 0b0000_0111),
        (byte & 0b1111_1000 == 0b0000_1000) == (0b0000_1000 <= byte && byte <= 0b0000_1111),
        (byte & 0b1111_0000 == 0b0001_0000) == (0b0001_0000 <= byte && byte <= 0b0001_1111),
        (byte & 0b1110_0000 == 0b0010_0000) == (0b0010_0000 <= byte && byte <= 0b0011_1111),
        (byte & 0b1100_0000 == 0b0100_0000) == (0b0100_0000 <= byte && byte <= 0b0111_1111),
        (byte & 0b1000_0000 == 0b1000_0000) == (0b1000_0000 <= byte),
{
}

/// A byte belongs to a category exactly when its bits from the category's
/// leading one upwards are that one and nothing else.
pub proof fn lemma_category_by_leading_bit(c: Category, byte: u8)
    ensures
        c.admits(byte) <==> byte & c.fixed_bits() == c.leading_bit(),
{
    lemma_patterns(byte);
}

/// A decoded command: its category and the fields that the category carries.
#[derive(Clone, Copy, Debug, PartialEq, Eq, Structural)]
pub enum Instruction {
    NoOp,
    Clear,
    ReturnHome,
    EntryModeSet { text_direction: TextDirection, auto_shift: bool },
    DisplayControl { display: bool, cursor: bool, blink: bool },
    /// `display` tells a shift of the whole display from one of the cursor.
    Shift { display: bool, direction: Direction },
    FunctionSet { eight_bits: bool, lines: LineCount, characters: CharacterGrid },
    SetCgramAddress { cell: u8, addr: u8 },
    /// `addr` is the column as the command gives it, from 0 to 63.
    SetDdramAddress { line: u8, addr: u8 },
}

proof fn lemma_address_fields(byte: u8)
    by (bit_vector)
    ensures
        (byte & 0b0011_1000) >> 3 == (byte / 8) % 8,
        byte & 0b0000_0111 == byte % 8,
        byte & 0b0111_1111 == byte % 128,
{
}

impl Instruction {
    /// The address fields lie within what their bits can hold: three bits
    /// for a glyph and for a row, one for a line and six for a column.
    pub open spec fn wf(self) -> bool {
        match self {
            Instruction::SetCgramAddress { cell, addr } => cell < 8 && addr < 8,
            Instruction::SetDdramAddress { line, addr } => line < 2 && addr < 64,
            _ => true,
        }
    }

    /// The category that the instruction belongs to.
    pub open spec fn category(self) -> Category {
        match self {
            Instruction::NoOp => Category::NoOp,
            Instruction::Clear => Category::Clear,
            Instruction::ReturnHome => Category::ReturnHome,
            Instruction::EntryModeSet { .. } => Category::EntryModeSet,
            Instruction::DisplayControl { .. } => Category::DisplayControl,
            Instruction::Shift { .. } => Category::Shift,
            Instruction::FunctionSet { .. } => Category::FunctionSet,
            Instruction::SetCgramAddress { .. } => Category::SetCgramAddress,
            Instruction::SetDdramAddress { .. } => Category::SetDdramAddress,
        }
    }

    /// What a command byte means: the fields are read from the bits below
    /// the leading one of its category.
    pub open spec fn spec_decode(byte: u8) -> Instruction {
        match Category::spec_of(byte) {
            Category::NoOp => Instruction::NoOp,
            Category::Clear => Instruction::Clear,
            Category::ReturnHome => Instruction::ReturnHome,
            Category::EntryModeSet => Instruction::EntryModeSet {
                text_direction: TextDirection::spec_from_u8(byte),
                auto_shift: has_bit(byte, 1),
            },
            Category::DisplayControl => Instruction::DisplayControl {
                display: has_bit(byte, 4),
                cursor: has_bit(byte, 2),
                blink: has_bit(byte, 1),
            },
            Category::Shift => Instruction::Shift {
                display: has_bit(byte, 8),
                direction: Direction::spec_from_u8(byte),
            },
            Category::FunctionSet => Instruction::FunctionSet {
                eight_bits: has_bit(byte, 16),
                lines: LineCount::spec_from_u8(byte),
                characters: CharacterGrid::spec_from_u8(byte),
            },
            Category::SetCgramAddress => Instruction::SetCgramAddress {
                cell: (byte / 8) % 8,
                addr: byte % 8,
            },
            Category::SetDdramAddress => if byte % 128 >= 0x40 {
                Instruction::SetDdramAddress { line: 1, addr: (byte % 128 - 0x40) as u8 }
            } else {
                Instruction::SetDdramAddress { line: 0, addr: byte % 128 }
            },
        }
    }

    /// Decodes a command byte.
    #[verifier::when_used_as_spec(spec_decode)]
    pub fn decode(byte: u8) -> (r: Instruction)
        ensures
            r == Instruction::spec_decode(byte),
            r.category() == Category::spec_of(byte),
            r.wf(),
    {
        proof {
            lemma_mask_tests_bit(byte);
            lemma_address_fields(byte);
        }
        match Category::of(byte) {
            Category::NoOp => Instruction::NoOp,
            Category::Clear => Instruction::Clear,
            Category::ReturnHome => Instruction::ReturnHome,
            Category::EntryModeSet => Instruction::EntryModeSet {
                text_direction: TextDirection::from_u8(byte),
                auto_shift: (byte & 0b0000_0001) != 0,
            },
            Category::DisplayControl => Instruction::DisplayControl {
                display: (byte & 0b0000_0100) != 0,
                cursor: (byte & 0b0000_0010) != 0,
                blink: (byte & 0b0000_0001) != 0,
            },
            Category::Shift => Instruction::Shift {
                display: (byte & 0b0000_1000) != 0,
                direction: Direction::from_u8(byte),
            },
            Category::FunctionSet => Instruction::FunctionSet {
                eight_bits: (byte & 0b0001_0000) != 0,
                lines: LineCount::from_u8(byte),
                characters: CharacterGrid::from_u8(byte),
            },
            Category::SetCgramAddress => Instruction::SetCgramAddress {
                cell: (byte & 0b0011_1000) >> 3,
                addr: byte & 0b0000_0111,
            },
            Category::SetDdramAddress => {
                let address: u8 = byte & 0b0111_1111;
                if address >= 0x40 {
                    Instruction::SetDdramAddress { line: 1, addr: address - 0x40 }
                } else {
                    Instruction::SetDdramAddress { line: 0, addr: address }
                }
            },
        }
    }
}

} // verus!
