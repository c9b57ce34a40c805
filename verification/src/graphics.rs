//! The memories of the controller, the address counter that walks them, and
//! what a renderer reads from them.
use crate::commands::CharacterGrid;
use crate::commands::Direction;
use crate::commands::Instruction;
use crate::commands::LineCount;
use crate::commands::TextDirection;
use vstd::prelude::*;

verus! {

/// The cells of one display line.
pub const LINE_CELLS: u8 = 40;

/// The rows of one glyph.
pub const GLYPH_ROWS: u8 = 8;

/// The glyphs of the glyph memory.
pub const CUSTOM_GLYPHS: u8 = 8;

/// A position on the screen, in pixels.
#[derive(Clone, Copy, Debug, PartialEq, Eq, Structural)]
pub struct Point {
    pub x: usize,
    pub y: usize,
}

impl Default for Point {
    fn default() -> (r: Point)
        ensures
            r == (Point { x: 0, y: 0 }),
    {
        Point { x: 0, y: 0 }
    }
}

/// Whether a step from `offset` in `direction` leaves the range below `max`
/// and comes back in at the other end.
pub open spec fn offset_wraps(offset: u8, max: u8, direction: Direction) -> bool {
    match direction {
        Direction::Left => offset == 0,
        Direction::Right => offset + 1 == max,
    }
}

/// Where a step from `offset` in `direction` leads, in the range below `max`.
pub open spec fn offset_after(offset: u8, max: u8, direction: Direction) -> int {
    match direction {
        Direction::Left => if offset == 0 {
            max - 1
        } else {
            offset - 1
        },
        Direction::Right => if offset + 1 == max {
            0
        } else {
            offset + 1
        },
    }
}

/// Moves `offset` one step in `direction` within the range below `max`, and
/// tells whether it wrapped round.
pub fn shift_offset(offset: &mut u8, max: u8, direction: Direction) -> (wrapped: bool)
    requires
        direction == Direction::Left ==> *old(offset) > 0 || max > 0,
        direction == Direction::Right ==> *old(offset) < u8::MAX,
    ensures
        *final(offset) == offset_after(*old(offset), max, direction),
        wrapped == offset_wraps(*old(offset), max, direction),
{
    match direction {
        Direction::Left => {
            let result = *offset == 0;
            if result {
                *offset = max;
            }
            *offset -= 1;
            result
        },
        Direction::Right => {
            *offset += 1;
            if *offset == max {
                *offset = 0;
                true
            } else {
                false
            }
        },
    }
}

/// Within its range an offset moves as on a ring: one step is one more or
/// one less, modulo the length of the range, and the offset stays in range.
pub proof fn lemma_offset_moves_on_ring(offset: u8, max: u8, direction: Direction)
    requires
        offset < max,
    ensures
        0 <= offset_after(offset, max, direction) < max,
        direction == Direction::Right ==> offset_after(offset, max, direction) == (offset + 1) % (
        max as int),
        direction == Direction::Left ==> offset_after(offset, max, direction) == (offset + max - 1)
            % (max as int),
{
    let m = max as int;
    match direction {
        Direction::Right => {
            if offset + 1 == max {
                vstd::arithmetic::div_mod::lemma_mod_self_0(m);
            } else {
                vstd::arithmetic::div_mod::lemma_small_mod((offset + 1) as nat, m as nat);
            }
        },
        Direction::Left => {
            if offset == 0 {
                vstd::arithmetic::div_mod::lemma_small_mod((m - 1) as nat, m as nat);
            } else {
                vstd::arithmetic::div_mod::lemma_mod_add_multiples_vanish(offset - 1, m);
                vstd::arithmetic::div_mod::lemma_small_mod((offset - 1) as nat, m as nat);
            }
        },
    }
}

/// A step and the step back cancel.
pub proof fn lemma_offset_step_back(offset: u8, max: u8, direction: Direction)
    requires
        offset < max,
    ensures
        offset_after(
            offset_after(offset, max, direction) as u8,
            max,
            direction.spec_switch(),
        ) == offset,
{
}

/// The controller's read and write position: a cell of the display memory
/// or a row of a glyph in the glyph memory.
#[derive(Clone, Copy, Debug, PartialEq, Eq, Structural)]
pub enum AddressCounter {
    Ddram { line: u8, addr: u8 },
    Cgram { cell: u8, addr: u8 },
}

impl AddressCounter {
    /// The counter names a line of the display, or a glyph and one of its
    /// rows. Every command keeps this. The column may lie past the end of
    /// the line: a command that sets the address can name such a column.
    pub open spec fn wf(self) -> bool {
        match self {
            AddressCounter::Ddram { line, addr } => line < 2,
            AddressCounter::Cgram { cell, addr } => cell < CUSTOM_GLYPHS && addr < GLYPH_ROWS,
        }
    }

    /// The counter points at a cell or a row that its memory has: a column
    /// of the display lies within the line. A write needs this.
    pub open spec fn spec_in_memory(self) -> bool {
        match self {
            AddressCounter::Ddram { line, addr } => line < 2 && addr < LINE_CELLS,
            AddressCounter::Cgram { cell, addr } => cell < CUSTOM_GLYPHS && addr < GLYPH_ROWS,
        }
    }

    /// There is a column one step further in `direction`: the counter is not
    /// at the highest column that it can hold and asked to move right.
    pub open spec fn spec_can_shift(self, direction: Direction) -> bool {
        match self {
            AddressCounter::Ddram { line, addr } => direction == Direction::Right ==> addr
                < u8::MAX,
            AddressCounter::Cgram { .. } => true,
        }
    }

    #[verifier::when_used_as_spec(spec_in_memory)]
    pub fn in_memory(self) -> (r: bool)
        ensures
            r == self.spec_in_memory(),
    {
        match self {
            AddressCounter::Ddram { line, addr } => line < 2 && addr < LINE_CELLS,
            AddressCounter::Cgram { cell, addr } => cell < CUSTOM_GLYPHS && addr < GLYPH_ROWS,
        }
    }

    #[verifier::when_used_as_spec(spec_can_shift)]
    pub fn can_shift(self, direction: Direction) -> (r: bool)
        ensures
            r == self.spec_can_shift(direction),
    {
        match self {
            AddressCounter::Ddram { line: _, addr } => match direction {
                Direction::Left => true,
                Direction::Right => addr < u8::MAX,
            },
            AddressCounter::Cgram { .. } => true,
        }
    }

    /// The number of positions of the memory that the counter names.
    pub open spec fn ring(self) -> int {
        match self {
            AddressCounter::Ddram { .. } => 2 * LINE_CELLS,
            AddressCounter::Cgram { .. } => CUSTOM_GLYPHS * GLYPH_ROWS,
        }
    }

    /// The counter's place among the positions of its memory, line after
    /// line or glyph after glyph.
    pub open spec fn position(self) -> int {
        match self {
            AddressCounter::Ddram { line, addr } => line * LINE_CELLS + addr,
            AddressCounter::Cgram { cell, addr } => cell * GLYPH_ROWS + addr,
        }
    }

    /// The counter one step further in `direction`. A column that leaves its
    /// line comes back in at the other end, on the other line. A column past
    /// the end of its line moves by one and stays on its line. A row that
    /// leaves its glyph comes back in at the other end, in the neighbouring
    /// glyph, and the neighbours of the last glyph and of the first are each
    /// other.
    pub open spec fn shifted(self, direction: Direction) -> AddressCounter {
        match self {
            AddressCounter::Ddram { line, addr } => AddressCounter::Ddram {
                line: if offset_wraps(addr, LINE_CELLS, direction) {
                    (1 - line) as u8
                } else {
                    line
                },
                addr: offset_after(addr, LINE_CELLS, direction) as u8,
            },
            AddressCounter::Cgram { cell, addr } => AddressCounter::Cgram {
                cell: if offset_wraps(addr, GLYPH_ROWS, direction) {
                    offset_after(cell, CUSTOM_GLYPHS, direction) as u8
                } else {
                    cell
                },
                addr: offset_after(addr, GLYPH_ROWS, direction) as u8,
            },
        }
    }

    /// Moves the counter one step in `direction`.
    pub fn shift(&mut self, direction: Direction)
        requires
            old(self).wf(),
            old(self).spec_can_shift(direction),
        ensures
            *final(self) == old(self).shifted(direction),
            final(self).wf(),
            old(self).spec_in_memory() ==> final(self).spec_in_memory(),
    {
        match self {
            AddressCounter::Ddram { line, addr } => {
                if shift_offset(addr, LINE_CELLS, direction) {
                    *line = 1 - *line;
                }
            },
            AddressCounter::Cgram { cell, addr } => {
                if shift_offset(addr, GLYPH_ROWS, direction) {
                    shift_offset(cell, CUSTOM_GLYPHS, direction);
                }
            },
        }
    }
}

/// Each memory is one ring to the counter: a step leads to the next position
/// or to the one before, modulo the size of the memory, and the counter
/// keeps pointing into the memory that it names.
pub proof fn lemma_shift_moves_on_ring(ac: AddressCounter, direction: Direction)
    requires
        ac.spec_in_memory(),
    ensures
        ac.shifted(direction).spec_in_memory(),
        ac.shifted(direction) is Ddram <==> ac is Ddram,
        ac.shifted(direction).ring() == ac.ring(),
        direction == Direction::Right ==> ac.shifted(direction).position() == (ac.position() + 1)
            % ac.ring(),
        direction == Direction::Left ==> ac.shifted(direction).position() == (ac.position()
            + ac.ring() - 1) % ac.ring(),
{
    let p = ac.position();
    match ac {
        AddressCounter::Ddram { line, addr } => {
            assert(p == line * 40 + addr);
            assert(ac.ring() == 80);
            assert((p + 1) % 80 == if p == 79 { 0 } else { p + 1 });
            assert((p + 80 - 1) % 80 == if p == 0 { 79 } else { p - 1 });
        },
        AddressCounter::Cgram { cell, addr } => {
            assert(p == cell * 8 + addr);
            assert(ac.ring() == 64);
            assert((p + 1) % 64 == if p == 63 { 0 } else { p + 1 });
            assert((p + 64 - 1) % 64 == if p == 0 { 63 } else { p - 1 });
        },
    }
}

/// A step and the step back cancel.
pub proof fn lemma_shift_step_back(ac: AddressCounter, direction: Direction)
    requires
        ac.spec_in_memory(),
    ensures
        ac.shifted(direction).shifted(direction.spec_switch()) == ac,
{
}

/// Past the end of its line the counter moves by one column and stays on
/// its line: to the left it comes back to the last cell of the line, to
/// the right it goes on as far as a column can be counted.
pub proof fn lemma_shift_past_the_line(line: u8, column: u8, direction: Direction)
    requires
        line < 2,
        column >= LINE_CELLS,
        (AddressCounter::Ddram { line, addr: column }).spec_can_shift(direction),
    ensures
        direction == Direction::Left ==> (AddressCounter::Ddram { line, addr: column }).shifted(
            direction,
        ) == (AddressCounter::Ddram { line, addr: (column - 1) as u8 }),
        direction == Direction::Right ==> (AddressCounter::Ddram { line, addr: column }).shifted(
            direction,
        ) == (AddressCounter::Ddram { line, addr: (column + 1) as u8 }),
        (AddressCounter::Ddram { line, addr: column }).shifted(direction).wf(),
{
}

/// The code of the blank character, which fills a cleared display.
pub const SPACE: u8 = 0x20;

/// The glyphs of the glyph ROM: the codes from 32 to 127.
pub const ROM_GLYPHS: usize = 96;

/// What the controller holds, as a renderer reads it: the display memory
/// line by line, the glyph memory and the glyph ROM glyph by glyph and row
/// by row, and the settings that commands change.
#[verifier::ext_equal]
pub struct Snapshot {
    pub ddram: Seq<Seq<u8>>,
    pub cgram: Seq<Seq<u8>>,
    pub cgrom: Seq<Seq<u8>>,
    pub characters: CharacterGrid,
    pub lines: LineCount,
    pub text_direction: TextDirection,
    pub auto_shift: bool,
    pub ac: AddressCounter,
    pub offset: u8,
    pub display: bool,
    pub cursor: bool,
    pub blink: bool,
}

/// A table of `rows` rows of `columns` bytes each.
pub open spec fn is_table(table: Seq<Seq<u8>>, rows: int, columns: int) -> bool {
    &&& table.len() == rows
    &&& forall|i: int| 0 <= i < rows ==> (#[trigger] table[i]).len() == columns
}

/// The table `table` with `value` at row `row`, column `column`.
pub open spec fn table_with(table: Seq<Seq<u8>>, row: int, column: int, value: u8) -> Seq<
    Seq<u8>,
> {
    table.update(row, table[row].update(column, value))
}

/// The table that an array of arrays holds.
pub open spec fn table_of<const C: usize, const R: usize>(array: [[u8; C]; R]) -> Seq<Seq<u8>> {
    Seq::new(R as nat, |i: int| array[i]@)
}

impl Snapshot {
    /// The memories have their sizes, the address counter names a line or a
    /// row of a glyph, and the window starts within a line. Every write and
    /// every command keeps this.
    pub open spec fn wf(self) -> bool {
        &&& is_table(self.ddram, 2, LINE_CELLS as int)
        &&& is_table(self.cgram, CUSTOM_GLYPHS as int, GLYPH_ROWS as int)
        &&& is_table(self.cgrom, ROM_GLYPHS as int, GLYPH_ROWS as int)
        &&& self.ac.wf()
        &&& self.offset < LINE_CELLS
    }

    /// There is a cell or a row for a data byte to go to: the address
    /// counter points at one that its memory has.
    pub open spec fn can_write(self) -> bool {
        self.ac.spec_in_memory()
    }

    /// `instruction` can be carried out: its address fields are within
    /// what their bits can hold, and where it moves the address counter
    /// there is a column for the counter to move to.
    pub open spec fn accepts(self, instruction: Instruction) -> bool {
        &&& instruction.wf()
        &&& match instruction {
            Instruction::Shift { display, direction } => display || self.ac.spec_can_shift(
                direction,
            ),
            _ => true,
        }
    }

    /// The controller as it is when power comes on, with the given ROM.
    pub open spec fn power_on(cgrom: Seq<Seq<u8>>) -> Snapshot {
        Snapshot {
            ddram: Seq::new(2, |l: int| Seq::new(LINE_CELLS as nat, |c: int| SPACE)),
            cgram: Seq::new(
                CUSTOM_GLYPHS as nat,
                |g: int| Seq::new(GLYPH_ROWS as nat, |r: int| 0u8),
            ),
            cgrom,
            characters: CharacterGrid::C5x8,
            lines: LineCount::Two,
            text_direction: TextDirection::LeftToRight,
            auto_shift: false,
            ac: AddressCounter::Ddram { line: 0, addr: 0 },
            offset: 0,
            display: true,
            cursor: false,
            blink: false,
        }
    }

    /// The controller after `data` was written at the address counter. The
    /// byte goes to the memory that the counter names. With automatic shift
    /// a write to the display memory moves the window one cell against the
    /// text direction. In every case the counter then moves one step in the
    /// text direction.
    pub open spec fn written(self, data: u8) -> Snapshot {
        let ac = self.ac.shifted(self.text_direction.spec_direction());
        match self.ac {
            AddressCounter::Ddram { line, addr } => Snapshot {
                ddram: table_with(self.ddram, line as int, addr as int, data),
                offset: if self.auto_shift {
                    offset_after(
                        self.offset,
                        LINE_CELLS,
                        self.text_direction.spec_direction().spec_switch(),
                    ) as u8
                } else {
                    self.offset
                },
                ac,
                ..self
            },
            AddressCounter::Cgram { cell, addr } => Snapshot {
                cgram: table_with(self.cgram, cell as int, addr as int, data),
                ac,
                ..self
            },
        }
    }

    /// The controller after `instruction`, but for the width of the bus,
    /// which is no part of the snapshot. A shift of the whole display to the
    /// left moves the window one cell to the right, so that the text is seen
    /// to move left, and the other way round.
    pub open spec fn applied(self, instruction: Instruction) -> Snapshot {
        match instruction {
            Instruction::NoOp => self,
            Instruction::Clear => Snapshot {
                ddram: Seq::new(2, |l: int| Seq::new(LINE_CELLS as nat, |c: int| SPACE)),
                ac: AddressCounter::Ddram { line: 0, addr: 0 },
                offset: 0,
                ..self
            },
            Instruction::ReturnHome => Snapshot {
                ac: AddressCounter::Ddram { line: 0, addr: 0 },
                offset: 0,
                ..self
            },
            Instruction::EntryModeSet { text_direction, auto_shift } => Snapshot {
                text_direction,
                auto_shift,
                ..self
            },
            Instruction::DisplayControl { display, cursor, blink } => Snapshot {
                display,
                cursor,
                blink,
                ..self
            },
            Instruction::Shift { display, direction } => if display {
                Snapshot {
                    offset: offset_after(self.offset, LINE_CELLS, direction.spec_switch()) as u8,
                    ..self
                }
            } else {
                Snapshot { ac: self.ac.shifted(direction), ..self }
            },
            Instruction::FunctionSet { eight_bits, lines, characters } => Snapshot {
                lines,
                characters,
                ..self
            },
            Instruction::SetCgramAddress { cell, addr } => Snapshot {
                ac: AddressCounter::Cgram { cell, addr },
                ..self
            },
            Instruction::SetDdramAddress { line, addr } => Snapshot {
                ac: AddressCounter::Ddram { line, addr },
                ..self
            },
        }
    }
}

/// The memories and settings of one controller.
pub struct GraphicData {
    pub ddram: [[u8; 40]; 2],
    pub cgram: [[u8; 8]; 8],
    pub cgrom: [[u8; 8]; 96],
    pub characters: CharacterGrid,
    pub lines: LineCount,
    pub text_direction: TextDirection,
    pub auto_shift: bool,
    pub ac: AddressCounter,
    pub offset: u8,
    pub display: bool,
    pub cursor: bool,
    pub blink: bool,
}

impl View for GraphicData {
    type V = Snapshot;

    open spec fn view(&self) -> Snapshot {
        Snapshot {
            ddram: table_of(self.ddram),
            cgram: table_of(self.cgram),
            cgrom: table_of(self.cgrom),
            characters: self.characters,
            lines: self.lines,
            text_direction: self.text_direction,
            auto_shift: self.auto_shift,
            ac: self.ac,
            offset: self.offset,
            display: self.display,
            cursor: self.cursor,
            blink: self.blink,
        }
    }
}

impl GraphicData {
    /// The controller as it is when power comes on: a blank display, an
    /// empty glyph memory, the given glyph ROM, text from left to right
    /// without automatic shift, the display on, cursor and blinking off.
    pub fn new(cgrom: [[u8; 8]; 96]) -> (r: GraphicData)
        ensures
            r@ == Snapshot::power_on(table_of(cgrom)),
            r@.wf(),
    {
        let r = GraphicData {
            ddram: [[SPACE; 40]; 2],
            cgram: [[0u8; 8]; 8],
            cgrom,
            auto_shift: false,
            text_direction: TextDirection::LeftToRight,
            characters: CharacterGrid::C5x8,
            lines: LineCount::Two,
            ac: AddressCounter::Ddram { line: 0, addr: 0 },
            offset: 0,
            display: true,
            cursor: false,
            blink: false,
        };
        assert(r@ =~~= Snapshot::power_on(table_of(cgrom)));
        r
    }

    /// Whether there is a cell or a row for a data byte to go to.
    pub fn can_write(&self) -> (r: bool)
        ensures
            r == self@.can_write(),
    {
        self.ac.in_memory()
    }

    /// Whether `instruction` can be carried out.
    pub fn accepts(&self, instruction: Instruction) -> (r: bool)
        ensures
            r == self@.accepts(instruction),
    {
        match instruction {
            Instruction::Shift { display, direction } => display || self.ac.can_shift(direction),
            Instruction::SetCgramAddress { cell, addr } => cell < 8 && addr < 8,
            Instruction::SetDdramAddress { line, addr } => line < 2 && addr < 64,
            _ => true,
        }
    }

    /// Writes `data` at the address counter and moves on.
    pub fn write(&mut self, data: u8)
        requires
            old(self)@.wf(),
            old(self)@.can_write(),
        ensures
            final(self)@ == old(self)@.written(data),
            final(self)@.wf(),
            final(self)@.can_write(),
    {
        match self.ac {
            AddressCounter::Ddram { line, addr } => {
                self.ddram[line as usize][addr as usize] = data;
                if self.auto_shift {
                    let against = self.text_direction.direction().switch();
                    shift_offset(&mut self.offset, LINE_CELLS, against);
                }
            },
            AddressCounter::Cgram { cell, addr } => {
                self.cgram[cell as usize][addr as usize] = data;
            },
        }
        self.ac.shift(self.text_direction.direction());
        assert(self@ =~~= old(self)@.written(data));
    }

    /// Carries out `instruction` on the memories and settings.
    pub fn apply(&mut self, instruction: Instruction)
        requires
            old(self)@.wf(),
            old(self)@.accepts(instruction),
        ensures
            final(self)@ == old(self)@.applied(instruction),
            final(self)@.wf(),
    {
        match instruction {
            Instruction::NoOp => {},
            Instruction::Clear => {
                self.ddram = [[SPACE; 40]; 2];
                self.ac = AddressCounter::Ddram { line: 0, addr: 0 };
                self.offset = 0;
            },
            Instruction::ReturnHome => {
                self.ac = AddressCounter::Ddram { line: 0, addr: 0 };
                self.offset = 0;
            },
            Instruction::EntryModeSet { text_direction, auto_shift } => {
                self.text_direction = text_direction;
                self.auto_shift = auto_shift;
            },
            Instruction::DisplayControl { display, cursor, blink } => {
                self.display = display;
                self.cursor = cursor;
                self.blink = blink;
            },
            Instruction::Shift { display, direction } => {
                if display {
                    shift_offset(&mut self.offset, LINE_CELLS, direction.switch());
                } else {
                    self.ac.shift(direction);
                }
            },
            Instruction::FunctionSet { eight_bits: _, lines, characters } => {
                self.lines = lines;
                self.characters = characters;
            },
            Instruction::SetCgramAddress { cell, addr } => {
                self.ac = AddressCounter::Cgram { cell, addr };
            },
            Instruction::SetDdramAddress { line, addr } => {
                self.ac = AddressCounter::Ddram { line, addr };
            },
        }
        assert(self@ =~~= old(self)@.applied(instruction));
    }
}

/// A write and an instruction leave a controller in order as they found it
/// in order, and neither changes the glyph ROM. After a write there is a
/// cell or a row for the next.
pub proof fn lemma_rom_and_order_are_kept(s: Snapshot, data: u8, instruction: Instruction)
    requires
        s.wf(),
    ensures
        s.can_write() ==> s.written(data).wf() && s.written(data).can_write() && s.written(
            data,
        ).cgrom == s.cgrom,
        s.accepts(instruction) ==> s.applied(instruction).wf() && s.applied(instruction).cgrom
            == s.cgrom,
{
}

/// Only a command that sets a display address can leave the address counter
/// past the end of a line: after any other instruction there is a cell or
/// a row to write to if there was one before.
pub proof fn lemma_only_set_address_leaves_the_line(s: Snapshot, instruction: Instruction)
    requires
        s.wf(),
        s.can_write(),
        s.accepts(instruction),
        !(instruction is SetDdramAddress),
    ensures
        s.applied(instruction).can_write(),
{
}

/// A command that sets a display address leaves the counter within the
/// line exactly when the column that it names is below 40.
pub proof fn lemma_set_address_within_the_line(s: Snapshot, line: u8, column: u8)
    requires
        s.wf(),
        line < 2,
        column < 64,
    ensures
        s.applied(Instruction::SetDdramAddress { line, addr: column }).ac == (
        AddressCounter::Ddram { line, addr: column }),
        s.applied(Instruction::SetDdramAddress { line, addr: column }).can_write() <==> column
            < LINE_CELLS,
{
}

/// Whatever the display held, after a clear every cell of both lines holds
/// a space, the address counter is at the start of the first line and the
/// window starts at the start of the line. Nothing else changes.
pub proof fn lemma_clear_blanks_display(s: Snapshot)
    ensures
        is_table(s.applied(Instruction::Clear).ddram, 2, LINE_CELLS as int),
        forall|l: int, c: int|
            0 <= l < 2 && 0 <= c < LINE_CELLS ==> #[trigger] s.applied(
                Instruction::Clear,
            ).ddram[l][c] == SPACE,
        s.applied(Instruction::Clear).ac == (AddressCounter::Ddram { line: 0, addr: 0 }),
        s.applied(Instruction::Clear).offset == 0,
        s.applied(Instruction::Clear) == (Snapshot {
            ddram: s.applied(Instruction::Clear).ddram,
            ac: AddressCounter::Ddram { line: 0, addr: 0 },
            offset: 0,
            ..s
        }),
{
}

/// A return home moves the address counter and the window as a clear does,
/// and changes nothing else: the memories keep what they held.
pub proof fn lemma_home_keeps_memory(s: Snapshot)
    ensures
        s.applied(Instruction::ReturnHome) == (Snapshot {
            ac: AddressCounter::Ddram { line: 0, addr: 0 },
            offset: 0,
            ..s
        }),
{
}

/// A write to the display memory puts the byte in the cell that the address
/// counter names and leaves every other cell, the glyph memory and the
/// settings as they were. The counter moves one cell in the text direction.
/// With automatic shift the window moves one cell against the text
/// direction, round the line; without it the window stays.
pub proof fn lemma_write_to_display(s: Snapshot, data: u8)
    requires
        s.wf(),
        s.can_write(),
        s.ac is Ddram,
    ensures
        s.written(data).ddram[s.ac->Ddram_line as int][s.ac->Ddram_addr as int] == data,
        forall|l: int, c: int|
            0 <= l < 2 && 0 <= c < LINE_CELLS && !(l == s.ac->Ddram_line && c
                == s.ac->Ddram_addr) ==> #[trigger] s.written(data).ddram[l][c] == s.ddram[l][c],
        s.written(data).ac == s.ac.shifted(s.text_direction.spec_direction()),
        s.auto_shift && s.text_direction == TextDirection::LeftToRight ==> s.written(data).offset
            == (s.offset + LINE_CELLS - 1) % (LINE_CELLS as int),
        s.auto_shift && s.text_direction == TextDirection::RightToLeft ==> s.written(data).offset
            == (s.offset + 1) % (LINE_CELLS as int),
        !s.auto_shift ==> s.written(data).offset == s.offset,
        s.written(data) == (Snapshot {
            ddram: s.written(data).ddram,
            ac: s.written(data).ac,
            offset: s.written(data).offset,
            ..s
        }),
{
    lemma_offset_moves_on_ring(s.offset, LINE_CELLS, Direction::Left);
    lemma_offset_moves_on_ring(s.offset, LINE_CELLS, Direction::Right);
}

/// Three bytes written from the start of the first line, with text from
/// left to right and automatic shift, stand in its first three cells, and
/// the address counter is at the fourth. The window has moved three cells
/// to the left, round the line.
pub proof fn lemma_three_writes_with_auto_shift(s: Snapshot, b0: u8, b1: u8, b2: u8)
    requires
        s.wf(),
        s.ac == (AddressCounter::Ddram { line: 0, addr: 0 }),
        s.auto_shift,
        s.text_direction == TextDirection::LeftToRight,
    ensures
        s.written(b0).written(b1).written(b2).ddram[0][0] == b0,
        s.written(b0).written(b1).written(b2).ddram[0][1] == b1,
        s.written(b0).written(b1).written(b2).ddram[0][2] == b2,
        s.written(b0).written(b1).written(b2).ac == (AddressCounter::Ddram { line: 0, addr: 3 }),
        s.written(b0).written(b1).written(b2).offset == (s.offset + LINE_CELLS - 3) % (
        LINE_CELLS as int),
{
    let s1 = s.written(b0);
    let s2 = s1.written(b1);
    lemma_write_to_display(s, b0);
    lemma_write_to_display(s1, b1);
    lemma_write_to_display(s2, b2);
}

/// A write to the glyph memory puts the byte in the row that the address
/// counter names and leaves every other row, the display memory, the window
/// and the settings as they were. The counter moves one row in the text
/// direction.
pub proof fn lemma_write_to_glyph(s: Snapshot, data: u8)
    requires
        s.wf(),
        s.ac is Cgram,
    ensures
        s.written(data).cgram[s.ac->Cgram_cell as int][s.ac->Cgram_addr as int] == data,
        forall|g: int, r: int|
            0 <= g < CUSTOM_GLYPHS && 0 <= r < GLYPH_ROWS && !(g == s.ac->Cgram_cell && r
                == s.ac->Cgram_addr) ==> #[trigger] s.written(data).cgram[g][r] == s.cgram[g][r],
        s.written(data).ac == s.ac.shifted(s.text_direction.spec_direction()),
        s.written(data) == (Snapshot {
            cgram: s.written(data).cgram,
            ac: s.written(data).ac,
            ..s
        }),
{
}

/// The address counter changes from one memory to the other only where an
/// instruction sets it: the two that set an address, and the clear and the
/// return home, which set it to the start of the display. A write and every
/// other instruction leave it in its memory.
pub proof fn lemma_counter_stays_in_its_memory(s: Snapshot, data: u8, instruction: Instruction)
    requires
        s.wf(),
    ensures
        s.written(data).ac is Ddram <==> s.ac is Ddram,
        !(instruction is Clear || instruction is ReturnHome || instruction is SetCgramAddress
            || instruction is SetDdramAddress) ==> (s.applied(instruction).ac is Ddram <==> s.ac
            is Ddram),
{
}

} // verus!
