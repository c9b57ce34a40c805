//! A simulator of the HD44780 character-display controller: the bus protocol,
//! the instruction decoder and the memories behind them.
//!
//! The controller is driven through its enable line. Each time that line
//! rises, the controller samples the register-select line and the data
//! lines, puts two four-bit transfers together where the bus is four bits
//! wide, and then carries out the command or stores the data byte.
pub mod commands;
pub mod graphics;
pub mod pin;
pub mod render;

use crate::commands::Instruction;
use crate::commands::LineCount;
use crate::graphics::GraphicData;
use crate::graphics::Snapshot;
use crate::pin::PinState;
use vstd::prelude::*;

verus! {

/// The pause that a driver asks for between two operations on the bus.
#[derive(Clone, Copy, Debug)]
pub struct Sleep;

impl Sleep {
    /// The length of a pause of `ms` units, in nanoseconds: a thousand for
    /// each unit, the number of units taken modulo two to the power 32.
    pub fn nanos(&self, ms: usize) -> (r: u32)
        requires
            1000 * (ms as u32) <= u32::MAX,
        ensures
            r == 1000 * (ms as u32),
    {
        1000 * (#[verifier::truncate] (ms as u32))
    }
}

/// What the register-select line says of the byte on the data lines.
#[derive(Clone, Copy, Debug, PartialEq, Eq, Structural)]
pub enum CommandOrData {
    Command,
    Data,
}

impl CommandOrData {
    /// A low register-select line announces a command, a high one data.
    pub open spec fn spec_from_pin(state: PinState) -> CommandOrData {
        match state {
            PinState::Low => CommandOrData::Command,
            PinState::High => CommandOrData::Data,
        }
    }

    #[verifier::when_used_as_spec(spec_from_pin)]
    pub fn from_pin(state: PinState) -> (r: CommandOrData)
        ensures
            r == CommandOrData::spec_from_pin(state),
    {
        match state {
            PinState::Low => CommandOrData::Command,
            PinState::High => CommandOrData::Data,
        }
    }
}

/// How bytes reach the controller: in one transfer over eight data lines,
/// or in two over the upper four. `FourBits` waits for the first transfer of
/// a pair, `FourBits2` holds it and waits for the second.
#[derive(Clone, Copy, Debug, PartialEq, Eq, Structural)]
pub enum BitMode {
    EightBits,
    FourBits,
    FourBits2 { buffer: u8 },
}

impl BitMode {
    /// The mode that a function-set command selects.
    pub open spec fn spec_of_width(eight_bits: bool) -> BitMode {
        if eight_bits {
            BitMode::EightBits
        } else {
            BitMode::FourBits
        }
    }

    /// The byte that is complete once `presented` has been sampled, if any:
    /// the second transfer of a pair fills the lower half of the first.
    pub open spec fn assembled(self, presented: u8) -> Option<u8> {
        match self {
            BitMode::EightBits => Some(presented),
            BitMode::FourBits => None,
            BitMode::FourBits2 { buffer } => Some(buffer | (presented >> 4)),
        }
    }

    /// The mode once `presented` has been sampled.
    pub open spec fn after(self, presented: u8) -> BitMode {
        match self {
            BitMode::EightBits => BitMode::EightBits,
            BitMode::FourBits => BitMode::FourBits2 { buffer: presented },
            BitMode::FourBits2 { .. } => BitMode::FourBits,
        }
    }

    #[verifier::when_used_as_spec(spec_of_width)]
    pub fn of_width(eight_bits: bool) -> (r: BitMode)
        ensures
            r == BitMode::spec_of_width(eight_bits),
    {
        if eight_bits {
            BitMode::EightBits
        } else {
            BitMode::FourBits
        }
    }

    /// The byte that would be complete once `presented` had been sampled.
    pub fn peek(&self, presented: u8) -> (full: Option<u8>)
        ensures
            full == self.assembled(presented),
    {
        match *self {
            BitMode::EightBits => Some(presented),
            BitMode::FourBits => None,
            BitMode::FourBits2 { buffer } => Some(buffer | (presented >> 4)),
        }
    }

    /// Samples what the data lines present, and returns the byte that this
    /// completes, if it completes one.
    pub fn assemble(&mut self, presented: u8) -> (full: Option<u8>)
        ensures
            full == old(self).assembled(presented),
            *final(self) == old(self).after(presented),
    {
        match *self {
            BitMode::EightBits => Some(presented),
            BitMode::FourBits => {
                *self = BitMode::FourBits2 { buffer: presented };
                None
            },
            BitMode::FourBits2 { buffer } => {
                *self = BitMode::FourBits;
                Some(buffer | (presented >> 4))
            },
        }
    }
}

/// The whole state of a controller: its memories and settings, the level of
/// its enable line, and the state of its bus.
#[verifier::ext_equal]
pub struct SimulatorState {
    pub graphics: Snapshot,
    pub enable: bool,
    pub bit_mode: BitMode,
}

impl SimulatorState {
    /// A controller fresh from construction.
    pub open spec fn configured(
        cgrom: Seq<Seq<u8>>,
        eight_bits: bool,
        lines: LineCount,
    ) -> SimulatorState {
        SimulatorState {
            graphics: Snapshot { lines, ..Snapshot::power_on(cgrom) },
            enable: false,
            bit_mode: BitMode::spec_of_width(eight_bits),
        }
    }

    /// The command `command` can be carried out: where it moves the
    /// address counter, there is a column for the counter to move to.
    pub open spec fn can_execute(self, command: u8) -> bool {
        self.graphics.accepts(Instruction::spec_decode(command))
    }

    /// There is a cell or a row for a data byte to go to.
    pub open spec fn can_write(self) -> bool {
        self.graphics.can_write()
    }

    /// A complete byte can be acted on, as a command or as data.
    pub open spec fn can_dispatch(self, register_select: CommandOrData, byte: u8) -> bool {
        match register_select {
            CommandOrData::Command => self.can_execute(byte),
            CommandOrData::Data => self.can_write(),
        }
    }

    /// The lines can be sampled: the byte that this completes, if it
    /// completes one, can be acted on.
    pub open spec fn can_strobe(self, register_select: CommandOrData, presented: u8) -> bool {
        match self.bit_mode.assembled(presented) {
            None => true,
            Some(byte) => self.can_dispatch(register_select, byte),
        }
    }

    /// The enable line can be driven high: it is high already, or the
    /// lines can be sampled.
    pub open spec fn can_rise(self, register_select: CommandOrData, presented: u8) -> bool {
        self.enable || self.can_strobe(register_select, presented)
    }

    /// The controller after the command `command`.
    pub open spec fn executed(self, command: u8) -> SimulatorState {
        let instruction = Instruction::spec_decode(command);
        SimulatorState {
            graphics: self.graphics.applied(instruction),
            bit_mode: match instruction {
                Instruction::FunctionSet { eight_bits, .. } => BitMode::spec_of_width(eight_bits),
                _ => self.bit_mode,
            },
            ..self
        }
    }

    /// The controller after the data byte `data`.
    pub open spec fn written(self, data: u8) -> SimulatorState {
        SimulatorState { graphics: self.graphics.written(data), ..self }
    }

    /// The controller after a complete byte has arrived.
    pub open spec fn dispatched(self, register_select: CommandOrData, byte: u8) -> SimulatorState {
        match register_select {
            CommandOrData::Command => self.executed(byte),
            CommandOrData::Data => self.written(byte),
        }
    }

    /// The controller after it has sampled its lines.
    pub open spec fn strobed(
        self,
        register_select: CommandOrData,
        presented: u8,
    ) -> SimulatorState {
        let sampled = SimulatorState { bit_mode: self.bit_mode.after(presented), ..self };
        match self.bit_mode.assembled(presented) {
            None => sampled,
            Some(byte) => sampled.dispatched(register_select, byte),
        }
    }

    /// The controller after its enable line was driven high: it samples its
    /// lines if the line was low before, and not otherwise.
    pub open spec fn raised(self, register_select: CommandOrData, presented: u8) -> SimulatorState {
        if self.enable {
            self
        } else {
            SimulatorState { enable: true, ..self }.strobed(register_select, presented)
        }
    }

    /// The controller after its enable line was driven low.
    pub open spec fn lowered(self) -> SimulatorState {
        SimulatorState { enable: false, ..self }
    }
}

/// One simulated controller. It owns its memories, and the levels of the
/// lines are handed to it each time its enable line is driven.
pub struct Simulator {
    graphics: GraphicData,
    enable: bool,
    bit_mode: BitMode,
}

impl View for Simulator {
    type V = SimulatorState;

    closed spec fn view(&self) -> SimulatorState {
        SimulatorState { graphics: self.graphics@, enable: self.enable, bit_mode: self.bit_mode }
    }
}

impl Simulator {
    /// The memories have their sizes, the address counter names a line or a
    /// row of a glyph, and the window starts within a line. Every operation
    /// keeps this.
    pub open spec fn wf(&self) -> bool {
        self@.graphics.wf()
    }

    /// A controller with the given glyph ROM, an eight-bit bus and two lines.
    pub fn new(cgrom: [[u8; 8]; 96]) -> (r: Simulator)
        ensures
            r@ == SimulatorState::configured(graphics::table_of(cgrom), true, LineCount::Two),
            r.wf(),
    {
        Simulator::with_config(cgrom, true, LineCount::Two)
    }

    /// A controller with the given glyph ROM, bus width and line count.
    pub fn with_config(cgrom: [[u8; 8]; 96], eight_bits: bool, lines: LineCount) -> (r: Simulator)
        ensures
            r@ == SimulatorState::configured(graphics::table_of(cgrom), eight_bits, lines),
            r.wf(),
    {
        let mut graphics = GraphicData::new(cgrom);
        graphics.lines = lines;
        let r = Simulator { graphics, enable: false, bit_mode: BitMode::of_width(eight_bits) };
        assert(r@ =~~= SimulatorState::configured(graphics::table_of(cgrom), eight_bits, lines));
        r
    }

    /// The memories and settings, for a renderer to read.
    pub fn graphics(&self) -> (r: &GraphicData)
        ensures
            r@ == self@.graphics,
    {
        &self.graphics
    }

    /// The state of the bus.
    pub fn bit_mode(&self) -> (r: BitMode)
        ensures
            r == self@.bit_mode,
    {
        self.bit_mode
    }

    /// Whether the enable line is high.
    pub fn enabled(&self) -> (r: bool)
        ensures
            r == self@.enable,
    {
        self.enable
    }

    /// Whether the command `command` can be carried out.
    pub fn can_execute(&self, command: u8) -> (r: bool)
        ensures
            r == self@.can_execute(command),
    {
        self.graphics.accepts(Instruction::decode(command))
    }

    /// Whether there is a cell or a row for a data byte to go to.
    pub fn can_write(&self) -> (r: bool)
        ensures
            r == self@.can_write(),
    {
        self.graphics.can_write()
    }

    /// Whether the lines can be sampled at these levels.
    pub fn can_strobe(&self, register_select: CommandOrData, data: u8) -> (r: bool)
        ensures
            r == self@.can_strobe(register_select, data),
    {
        match self.bit_mode.peek(data) {
            None => true,
            Some(byte) => match register_select {
                CommandOrData::Command => self.can_execute(byte),
                CommandOrData::Data => self.can_write(),
            },
        }
    }

    /// Whether the enable line can be driven high at these levels.
    pub fn can_rise(&self, rs: PinState, data: u8) -> (r: bool)
        ensures
            r == self@.can_rise(CommandOrData::spec_from_pin(rs), data),
    {
        self.enable || self.can_strobe(CommandOrData::from_pin(rs), data)
    }

    /// Carries out the command `command`.
    pub fn execute(&mut self, command: u8)
        requires
            old(self).wf(),
            old(self)@.can_execute(command),
        ensures
            final(self)@ == old(self)@.executed(command),
            final(self).wf(),
    {
        let instruction = Instruction::decode(command);
        self.graphics.apply(instruction);
        match instruction {
            Instruction::FunctionSet { eight_bits, lines: _, characters: _ } => {
                self.bit_mode = BitMode::of_width(eight_bits);
            },
            _ => {},
        }
    }

    /// Stores the data byte `data` at the address counter.
    pub fn write(&mut self, data: u8)
        requires
            old(self).wf(),
            old(self)@.can_write(),
        ensures
            final(self)@ == old(self)@.written(data),
            final(self).wf(),
    {
        self.graphics.write(data);
    }

    /// The enable line has risen: samples the register-select line and the
    /// data lines, and acts on the byte that this completes, if any.
    pub fn on_strobe_rising_edge(&mut self, register_select: CommandOrData, data: u8)
        requires
            old(self).wf(),
            old(self)@.can_strobe(register_select, data),
        ensures
            final(self)@ == old(self)@.strobed(register_select, data),
            final(self).wf(),
    {
        match self.bit_mode.assemble(data) {
            None => {},
            Some(byte) => match register_select {
                CommandOrData::Command => self.execute(byte),
                CommandOrData::Data => self.write(byte),
            },
        }
    }

    /// Drives the enable line low.
    pub fn low(&mut self)
        requires
            old(self).wf(),
        ensures
            final(self)@ == old(self)@.lowered(),
            final(self).wf(),
    {
        self.enable = false;
    }

    /// Drives the enable line high while the register-select line is at
    /// `rs` and the data lines present `data`.
    pub fn high(&mut self, rs: PinState, data: u8)
        requires
            old(self).wf(),
            old(self)@.can_rise(CommandOrData::spec_from_pin(rs), data),
        ensures
            final(self)@ == old(self)@.raised(CommandOrData::spec_from_pin(rs), data),
            final(self).wf(),
    {
        if self.enable {
            return ;
        }
        self.enable = true;
        self.on_strobe_rising_edge(CommandOrData::from_pin(rs), data);
    }
}

/// Every byte on the bus that can be acted on leaves a controller in order
/// as it found it in order, and none changes the glyph ROM.
pub proof fn lemma_strobe_keeps_rom_and_order(
    s: SimulatorState,
    register_select: CommandOrData,
    presented: u8,
)
    requires
        s.graphics.wf(),
    ensures
        s.can_strobe(register_select, presented) ==> s.strobed(
            register_select,
            presented,
        ).graphics.wf() && s.strobed(register_select, presented).graphics.cgrom
            == s.graphics.cgrom,
        s.can_rise(register_select, presented) ==> s.raised(
            register_select,
            presented,
        ).graphics.wf() && s.raised(register_select, presented).graphics.cgrom
            == s.graphics.cgrom,
{
    let i = Instruction::spec_decode(presented);
    graphics::lemma_rom_and_order_are_kept(s.graphics, presented, i);
    match s.bit_mode {
        BitMode::FourBits2 { buffer } => {
            let byte = buffer | (presented >> 4);
            let j = Instruction::spec_decode(byte);
            graphics::lemma_rom_and_order_are_kept(s.graphics, byte, j);
        },
        _ => {},
    }
}

/// Only a rising edge of the enable line is an event: driving the line high
/// while it is high changes nothing, and driving it low changes nothing but
/// the level of the line.
pub proof fn lemma_only_rising_edges_count(
    s: SimulatorState,
    register_select: CommandOrData,
    presented: u8,
)
    ensures
        s.enable ==> s.raised(register_select, presented) == s,
        !s.enable ==> s.raised(register_select, presented) == (SimulatorState {
            enable: true,
            ..s.strobed(register_select, presented)
        }),
        s.lowered().graphics == s.graphics,
        s.lowered().bit_mode == s.bit_mode,
        !s.lowered().enable,
{
}

/// On an eight-bit bus every sampled byte is complete and is acted on at once.
pub proof fn lemma_eight_bit_transfer(s: SimulatorState, register_select: CommandOrData, byte: u8)
    requires
        s.bit_mode == BitMode::EightBits,
    ensures
        s.strobed(register_select, byte) == s.dispatched(register_select, byte),
{
}

/// On a four-bit bus the first transfer of a pair is kept and changes
/// nothing else. The second completes the byte, which is acted on once, as
/// what the register-select line says at the second transfer, and the bus
/// then waits for the next pair.
pub proof fn lemma_four_bit_pair(
    s: SimulatorState,
    first_select: CommandOrData,
    first: u8,
    second_select: CommandOrData,
    second: u8,
)
    requires
        s.bit_mode == BitMode::FourBits,
    ensures
        s.strobed(first_select, first) == (SimulatorState {
            bit_mode: BitMode::FourBits2 { buffer: first },
            ..s
        }),
        s.strobed(first_select, first).strobed(second_select, second) == s.dispatched(
            second_select,
            first | (second >> 4),
        ),
{
}

/// The byte that a pair of transfers completes has the upper half of the
/// first as its upper half and the upper half of the second as its lower
/// half, where the first has nothing in its lower half.
pub proof fn lemma_pair_joins_upper_halves(first: u8, second: u8)
    by (bit_vector)
    requires
        first & 0x0f == 0,
    ensures
        (first | (second >> 4)) & 0xf0 == first,
        (first | (second >> 4)) & 0x0f == second >> 4,
        (first | (second >> 4)) == first + second / 16,
{
}

/// Whatever the display held, after the clear command every cell of both
/// lines holds a space, the address counter is at the start of the first
/// line and the window starts at the start of the line.
pub proof fn lemma_clear_command(s: SimulatorState)
    ensures
        s.executed(0b0000_0001).graphics == s.graphics.applied(Instruction::Clear),
        forall|l: int, c: int|
            0 <= l < 2 && 0 <= c < graphics::LINE_CELLS ==> #[trigger] s.executed(
                0b0000_0001,
            ).graphics.ddram[l][c] == graphics::SPACE,
        s.executed(0b0000_0001).graphics.ac == (graphics::AddressCounter::Ddram {
            line: 0,
            addr: 0,
        }),
        s.executed(0b0000_0001).graphics.offset == 0,
        s.executed(0b0000_0001).bit_mode == s.bit_mode,
        s.executed(0b0000_0001).enable == s.enable,
{
    graphics::lemma_clear_blanks_display(s.graphics);
}

/// Every command can be carried out on a controller in order, but a shift
/// of the cursor to the right when the address counter is at the highest
/// column that it can hold.
pub proof fn lemma_commands_that_can_be_carried_out(s: SimulatorState, command: u8)
    requires
        s.graphics.wf(),
    ensures
        s.can_execute(command) <==> !(Instruction::spec_decode(command) == (Instruction::Shift {
            display: false,
            direction: commands::Direction::Right,
        }) && s.graphics.ac == (graphics::AddressCounter::Ddram {
            line: s.graphics.ac->Ddram_line,
            addr: u8::MAX,
        })),
{
}

/// A command from 128 on sets the address counter into the display memory:
/// its low seven bits below 64 name a column of the first line, and from 64
/// on the column that many less of the second line. The column is taken as
/// it is named, also where it lies past the end of the line; there is a
/// cell to write to afterwards exactly when it does not.
pub proof fn lemma_set_display_address_command(s: SimulatorState, command: u8)
    requires
        command >= 0b1000_0000,
    ensures
        s.graphics.wf() ==> s.can_execute(command),
        command - 128 < 64 ==> s.executed(command).graphics.ac
            == (graphics::AddressCounter::Ddram { line: 0, addr: (command - 128) as u8 }),
        command - 128 >= 64 ==> s.executed(command).graphics.ac
            == (graphics::AddressCounter::Ddram { line: 1, addr: (command - 192) as u8 }),
        s.executed(command).can_write() <==> (command - 128) % 64 < graphics::LINE_CELLS,
        s.executed(command) == (SimulatorState {
            graphics: Snapshot { ac: s.executed(command).graphics.ac, ..s.graphics },
            ..s
        }),
{
}

/// A command from 64 to 127 sets the address counter into the glyph memory:
/// its bits 3 to 5 name the glyph and its bits 0 to 2 the row.
pub proof fn lemma_set_glyph_address_command(s: SimulatorState, command: u8)
    requires
        0b0100_0000 <= command < 0b1000_0000,
    ensures
        s.executed(command).graphics.ac == (graphics::AddressCounter::Cgram {
            cell: ((command - 64) / 8) as u8,
            addr: (command % 8) as u8,
        }),
        s.executed(command) == (SimulatorState {
            graphics: Snapshot { ac: s.executed(command).graphics.ac, ..s.graphics },
            ..s
        }),
{
}

} // verus!
