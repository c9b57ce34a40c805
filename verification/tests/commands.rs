use hd44780_simulator::commands::Category;
use hd44780_simulator::commands::CharacterGrid;
use hd44780_simulator::commands::Direction;
use hd44780_simulator::commands::Instruction;
use hd44780_simulator::commands::LineCount;
use hd44780_simulator::commands::TextDirection;

fn table_row(category: Category, byte: u8) -> bool {
    match category {
        Category::NoOp => byte == 0b0000_0000,
        Category::Clear => byte == 0b0000_0001,
        Category::ReturnHome => byte & 0b1111_1110 == 0b0000_0010,
        Category::EntryModeSet => byte & 0b1111_1100 == 0b0000_0100,
        Category::DisplayControl => byte & 0b1111_1000 == 0b0000_1000,
        Category::Shift => byte & 0b1111_0000 == 0b0001_0000,
        Category::FunctionSet => byte & 0b1110_0000 == 0b0010_0000,
        Category::SetCgramAddress => byte & 0b1100_0000 == 0b0100_0000,
        Category::SetDdramAddress => byte & 0b1000_0000 == 0b1000_0000,
    }
}

fn instruction_category(instruction: Instruction) -> Category {
    match instruction {
        Instruction::NoOp => Category::NoOp,
        Instruction::Clear => Category::Clear,
        Instruction::ReturnHome => Category::ReturnHome,
        Instruction::EntryModeSet { .. } => Category::EntryModeSet,
        Instruction::DisplayControl { .. } => Category::DisplayControl,
        Instruction::Shift { .. } => Category::Shift,
        Instruction::FunctionSet { .. } => Category::FunctionSet,
        Instruction::SetCgramAddress { .. } => Category::SetCgramAddress,
        Instruction::SetDdramAddress { .. } => Category::SetDdramAddress,
    }
}

const CATEGORIES: [Category; 9] = [
    Category::NoOp,
    Category::Clear,
    Category::ReturnHome,
    Category::EntryModeSet,
    Category::DisplayControl,
    Category::Shift,
    Category::FunctionSet,
    Category::SetCgramAddress,
    Category::SetDdramAddress,
];

#[test]
fn every_byte_has_exactly_one_category() {
    for byte in 0..=255u8 {
        let matching: Vec<Category> =
            CATEGORIES.iter().copied().filter(|c| table_row(*c, byte)).collect();
        assert_eq!(matching, vec![Category::of(byte)], "byte {}", byte);
        assert_eq!(instruction_category(Instruction::decode(byte)), Category::of(byte));
    }
}

#[test]
fn category_boundaries() {
    assert_eq!(Category::of(0), Category::NoOp);
    assert_eq!(Category::of(1), Category::Clear);
    assert_eq!(Category::of(2), Category::ReturnHome);
    assert_eq!(Category::of(3), Category::ReturnHome);
    assert_eq!(Category::of(4), Category::EntryModeSet);
    assert_eq!(Category::of(7), Category::EntryModeSet);
    assert_eq!(Category::of(8), Category::DisplayControl);
    assert_eq!(Category::of(15), Category::DisplayControl);
    assert_eq!(Category::of(16), Category::Shift);
    assert_eq!(Category::of(31), Category::Shift);
    assert_eq!(Category::of(32), Category::FunctionSet);
    assert_eq!(Category::of(63), Category::FunctionSet);
    assert_eq!(Category::of(64), Category::SetCgramAddress);
    assert_eq!(Category::of(127), Category::SetCgramAddress);
    assert_eq!(Category::of(128), Category::SetDdramAddress);
    assert_eq!(Category::of(255), Category::SetDdramAddress);
}

#[test]
fn decode_plain_commands() {
    assert_eq!(Instruction::decode(0), Instruction::NoOp);
    assert_eq!(Instruction::decode(1), Instruction::Clear);
    assert_eq!(Instruction::decode(2), Instruction::ReturnHome);
    assert_eq!(Instruction::decode(3), Instruction::ReturnHome);
}

#[test]
fn decode_entry_mode() {
    assert_eq!(
        Instruction::decode(0b0000_0110),
        Instruction::EntryModeSet { text_direction: TextDirection::LeftToRight, auto_shift: false }
    );
    assert_eq!(
        Instruction::decode(0b0000_0101),
        Instruction::EntryModeSet { text_direction: TextDirection::RightToLeft, auto_shift: true }
    );
}

#[test]
fn decode_display_control() {
    assert_eq!(
        Instruction::decode(0b0000_1110),
        Instruction::DisplayControl { display: true, cursor: true, blink: false }
    );
    assert_eq!(
        Instruction::decode(0b0000_1001),
        Instruction::DisplayControl { display: false, cursor: false, blink: true }
    );
}

#[test]
fn decode_shift() {
    assert_eq!(
        Instruction::decode(0b0001_0000),
        Instruction::Shift { display: false, direction: Direction::Left }
    );
    assert_eq!(
        Instruction::decode(0b0001_0111),
        Instruction::Shift { display: false, direction: Direction::Right }
    );
    assert_eq!(
        Instruction::decode(0b0001_1000),
        Instruction::Shift { display: true, direction: Direction::Left }
    );
    assert_eq!(
        Instruction::decode(0b0001_1100),
        Instruction::Shift { display: true, direction: Direction::Right }
    );
}

#[test]
fn decode_function_set() {
    assert_eq!(
        Instruction::decode(0b0011_1000),
        Instruction::FunctionSet {
            eight_bits: true,
            lines: LineCount::Two,
            characters: CharacterGrid::C5x8
        }
    );
    assert_eq!(
        Instruction::decode(0b0010_0100),
        Instruction::FunctionSet {
            eight_bits: false,
            lines: LineCount::One,
            characters: CharacterGrid::C5x10
        }
    );
}

#[test]
fn decode_addresses() {
    assert_eq!(
        Instruction::decode(0b0110_1011),
        Instruction::SetCgramAddress { cell: 5, addr: 3 }
    );
    assert_eq!(Instruction::decode(197), Instruction::SetDdramAddress { line: 1, addr: 5 });
    assert_eq!(
        Instruction::decode(0b1011_1111),
        Instruction::SetDdramAddress { line: 0, addr: 63 }
    );
    assert_eq!(
        Instruction::decode(0b1111_1111),
        Instruction::SetDdramAddress { line: 1, addr: 63 }
    );
    assert_eq!(Instruction::decode(0b1000_0000), Instruction::SetDdramAddress { line: 0, addr: 0 });
}

#[test]
fn directions() {
    assert_eq!(Direction::Left.switch(), Direction::Right);
    assert_eq!(Direction::Right.switch(), Direction::Left);
    assert_eq!(Direction::from_u8(0b0000_0100), Direction::Right);
    assert_eq!(Direction::from_u8(0b1111_1011), Direction::Left);
    assert_eq!(TextDirection::LeftToRight.direction(), Direction::Right);
    assert_eq!(TextDirection::RightToLeft.direction(), Direction::Left);
    assert_eq!(TextDirection::from_u8(0b0000_0010), TextDirection::LeftToRight);
    assert_eq!(TextDirection::from_u8(0b1111_1101), TextDirection::RightToLeft);
}

#[test]
fn function_set_fields() {
    assert_eq!(LineCount::from_u8(0b0000_1000), LineCount::Two);
    assert_eq!(LineCount::from_u8(0b1111_0111), LineCount::One);
    assert_eq!(CharacterGrid::from_u8(0b0000_0100), CharacterGrid::C5x10);
    assert_eq!(CharacterGrid::from_u8(0b1111_1011), CharacterGrid::C5x8);
}
