use chip8::{Chip8, Halt, MemoryError, Processor, ProcessorError, Reply, Request, State};

const FONT: [u8; 80] = [
    0xF0, 0x90, 0x90, 0x90, 0xF0, 0x20, 0x60, 0x20, 0x20, 0x70, 0xF0, 0x10, 0xF0, 0x80, 0xF0, 0xF0,
    0x10, 0xF0, 0x10, 0xF0, 0x90, 0x90, 0xF0, 0x10, 0x10, 0xF0, 0x80, 0xF0, 0x10, 0xF0, 0xF0, 0x80,
    0xF0, 0x90, 0xF0, 0xF0, 0x10, 0x20, 0x40, 0x40, 0xF0, 0x90, 0xF0, 0x90, 0xF0, 0xF0, 0x90, 0xF0,
    0x10, 0xF0, 0xF0, 0x90, 0xF0, 0x90, 0x90, 0xE0, 0x90, 0xE0, 0x90, 0xE0, 0xF0, 0x80, 0x80, 0x80,
    0xF0, 0xE0, 0x90, 0x90, 0x90, 0xE0, 0xF0, 0x80, 0xF0, 0x80, 0xF0, 0xF0, 0x80, 0xF0, 0x80, 0x80,
];

/// A machine with the font and `program` loaded.
fn machine_running(program: &[u8]) -> Chip8 {
    let mut machine = Chip8::new();
    assert_eq!(machine.init(&FONT, program), Ok(()));
    machine
}

fn v(machine: &Chip8, x: u8) -> u8 {
    machine.processor.registers().read_v(x)
}

fn pc(machine: &Chip8) -> u16 {
    machine.processor.registers().pc()
}

#[test]
fn a_new_machine_is_running_and_empty() {
    let machine = Chip8::new();
    assert_eq!(machine.processor.state(), State::Running);
    assert_eq!(pc(&machine), 0x200);
    assert_eq!(machine.processor.registers().sp(), 0);
    assert_eq!(machine.memory.read_range(0, 0x1000), Ok(&[0u8; 4096][..]));
    assert_eq!(machine.processor.registers().dump(), chip8::Registers::new().dump());
}

#[test]
fn init_loads_the_font_and_the_program() {
    let program = [0x60, 0x05, 0x61, 0x03];
    let machine = machine_running(&program);
    assert_eq!(machine.memory.read_range(0x050, 0x0A0), Ok(&FONT[..]));
    assert_eq!(machine.memory.read_range(0x200, 0x204), Ok(&program[..]));
    assert_eq!(machine.memory.read_range(0x000, 0x050), Ok(&[0u8; 0x50][..]));
    assert_eq!(machine.memory.read_range(0x0A0, 0x200), Ok(&[0u8; 0x160][..]));
    assert_eq!(machine.memory.read_range(0x204, 0x1000), Ok(&[0u8; 0xDFC][..]));
    assert_eq!(pc(&machine), 0x200);
    assert_eq!(machine.processor.state(), State::Running);
}

#[test]
fn init_takes_a_program_that_fills_memory() {
    let mut machine = Chip8::new();
    assert_eq!(machine.init(&[], &[0xAA; 0xE00]), Ok(()));
    assert_eq!(machine.memory.read(0x1FF), Ok(0));
    assert_eq!(machine.memory.read(0x200), Ok(0xAA));
    assert_eq!(machine.memory.read(0xFFF), Ok(0xAA));
}

#[test]
fn init_puts_the_program_over_a_long_font() {
    let mut machine = Chip8::new();
    assert_eq!(machine.init(&[0x11; 0x1B2], &[0x22, 0x22]), Ok(()));
    assert_eq!(machine.memory.read_range(0x1FE, 0x203), Ok(&[0x11u8, 0x11, 0x22, 0x22, 0][..]));
}

#[test]
fn init_refuses_what_does_not_fit() {
    let mut machine = Chip8::new();
    assert_eq!(machine.init(&FONT, &[0xAA; 0xE01]), Err(MemoryError::AddressOutOfRange));
    assert_eq!(machine.memory.read_range(0, 0x1000), Ok(&[0u8; 4096][..]));
    assert_eq!(machine.init(&[0x11; 0xFB1], &[]), Err(MemoryError::AddressOutOfRange));
    assert_eq!(machine.memory.read_range(0, 0x1000), Ok(&[0u8; 4096][..]));
    assert_eq!(machine.init(&[0x11; 0xFB0], &[]), Ok(()));
    assert_eq!(machine.memory.read(0xFFF), Ok(0x11));
}

#[test]
fn three_cycles_of_a_small_program() {
    let mut machine = Chip8::new();
    machine.init(&[], &[0x60, 0x05, 0x61, 0x03, 0x80, 0x14, 0x00, 0x00]).unwrap();
    for _ in 0..3 {
        assert_eq!(machine.cycle(Reply::Nothing), Ok(Request::Nothing));
    }
    assert_eq!(v(&machine, 0), 0x08);
    assert_eq!(v(&machine, 1), 0x03);
    assert_eq!(v(&machine, 0xF), 0);
    assert_eq!(pc(&machine), 0x206);
    assert_eq!(machine.processor.state(), State::Running);
}

#[test]
fn the_fourth_cycle_of_the_small_program_halts_the_machine() {
    let mut machine = Chip8::new();
    machine.init(&[], &[0x60, 0x05, 0x61, 0x03, 0x80, 0x14, 0x00, 0x00]).unwrap();
    for _ in 0..3 {
        machine.cycle(Reply::Nothing).unwrap();
    }
    let registers = machine.processor.registers().dump();
    let memory = machine.memory.dump();
    let halt = machine.cycle(Reply::Nothing).unwrap_err();
    assert_eq!(halt.error, ProcessorError::Unsupported);
    assert_eq!(halt.snapshot.registers.pc(), 0x206);
    assert_eq!(halt.snapshot.registers.read_v(0), 0x08);
    assert_eq!(halt.snapshot.memory.read_16(0x204), Ok(0x8014));
    assert_eq!(halt.snapshot.registers.dump(), registers);
    assert_eq!(halt.snapshot.memory.dump(), memory);
    assert!(registers.starts_with("PC  0x206\nSP  0x0\nstack:\n"));
    assert!(registers.contains("V0  0x8     V1  0x3\n"));
    assert!(memory.contains("0200:  60 05 61 03 80 14 00 00 00 00 00 00 00 00 00 00 `.a....."));
    assert_eq!(machine.processor.state(), State::Halted);
    assert_eq!(pc(&machine), 0x206);
    assert_eq!(machine.cycle(Reply::Nothing), Ok(Request::Nothing));
    assert_eq!(machine.processor.state(), State::Halted);
    assert_eq!(machine.processor.registers().dump(), registers);
}

#[test]
fn a_snapshot_is_a_copy() {
    let mut machine = machine_running(&[0x6A, 0x02]);
    machine.cycle(Reply::Nothing).unwrap();
    let registers = machine.processor.registers().snapshot();
    let memory = machine.memory.snapshot();
    assert_eq!(&registers, machine.processor.registers());
    assert_eq!(memory, machine.memory);
    machine.memory.write(0x300, 0xFF).unwrap();
    machine.init(&[], &[0x6A, 0x02, 0x6B, 0x03]).unwrap();
    machine.cycle(Reply::Nothing).unwrap();
    assert_eq!(registers.pc(), 0x202);
    assert_eq!(registers.read_v(0xB), 0);
    assert_eq!(memory.read(0x300), Ok(0));
    assert_eq!(machine.processor.registers().read_v(0xB), 3);
    assert_eq!(machine.memory.read(0x300), Ok(0xFF));
}

#[test]
fn a_return_without_a_call_halts_with_an_underflow() {
    let mut machine = machine_running(&[0x00, 0xEE]);
    let halt = machine.cycle(Reply::Nothing).unwrap_err();
    assert_eq!(halt.error, ProcessorError::StackUnderflow);
    assert_eq!(pc(&machine), 0x200);
    assert_eq!(machine.processor.state(), State::Halted);
}

#[test]
fn an_invalid_word_halts_with_its_code() {
    let mut machine = machine_running(&[0x81, 0x2F]);
    assert_eq!(
        Processor::cycle(&mut machine, Reply::Nothing),
        Err(ProcessorError::InvalidOpcode { code: 0x812F })
    );
    assert_eq!(machine.processor.state(), State::Running);
    let halt: Halt = machine.cycle(Reply::Nothing).unwrap_err();
    assert_eq!(halt.error, ProcessorError::InvalidOpcode { code: 0x812F });
    assert_eq!(machine.processor.state(), State::Halted);
}

#[test]
fn a_fetch_outside_memory_halts() {
    // 0x1FFF jumps to 0xFFF, where only one byte is left.
    let mut machine = machine_running(&[0x1F, 0xFF]);
    assert_eq!(machine.cycle(Reply::Nothing), Ok(Request::Nothing));
    assert_eq!(pc(&machine), 0xFFF);
    assert_eq!(
        Processor::cycle(&mut machine, Reply::Nothing),
        Err(ProcessorError::AddressOutOfRange)
    );
    assert_eq!(pc(&machine), 0xFFF);
    let halt = machine.cycle(Reply::Nothing).unwrap_err();
    assert_eq!(halt.error, ProcessorError::AddressOutOfRange);
    assert_eq!(machine.processor.state(), State::Halted);
}

#[test]
fn the_last_instruction_pair_of_memory_is_fetched() {
    let mut machine = Chip8::new();
    machine.memory.copy(0xFFE, &[0x6B, 0x2A]).unwrap();
    machine.init(&[], &[0x1F, 0xFE]).unwrap();
    assert_eq!(machine.cycle(Reply::Nothing), Ok(Request::Nothing));
    assert_eq!(machine.cycle(Reply::Nothing), Ok(Request::Nothing));
    assert_eq!(v(&machine, 0xB), 0x2A);
    assert_eq!(pc(&machine), 0x1000);
    let halt = machine.cycle(Reply::Nothing).unwrap_err();
    assert_eq!(halt.error, ProcessorError::AddressOutOfRange);
}

#[test]
fn a_subroutine_is_called_and_returns() {
    // 0x200: call 0x206; 0x202: V1 = 2; 0x204: jump 0x204; 0x206: V0 = 1; 0x208: return
    let mut machine =
        machine_running(&[0x22, 0x06, 0x61, 0x02, 0x12, 0x04, 0x60, 0x01, 0x00, 0xEE]);
    let mut trace = vec![];
    for _ in 0..5 {
        assert_eq!(machine.cycle(Reply::Nothing), Ok(Request::Nothing));
        trace.push(pc(&machine));
    }
    assert_eq!(trace, vec![0x206, 0x208, 0x202, 0x204, 0x204]);
    assert_eq!((v(&machine, 0), v(&machine, 1)), (1, 2));
    assert_eq!(machine.processor.registers().sp(), 0);
}

/// Runs `machine` for `cycles` cycles and answers its requests: random
/// bytes come from `random`, `key` is the one key that is down, and every
/// sprite collides. Returns what was asked of the display.
fn drive(machine: &mut Chip8, cycles: u32, random: &[u8], key: u8) -> Vec<Request> {
    let mut random = random.iter();
    let mut shown = vec![];
    for _ in 0..cycles {
        let mut reply = Reply::Nothing;
        loop {
            match machine.cycle(reply).unwrap() {
                Request::Nothing | Request::KeyPress => break,
                Request::ClearScreen => {
                    shown.push(Request::ClearScreen);
                    reply = Reply::Cleared;
                },
                Request::DrawSprite { x, y, sprite } => {
                    shown.push(Request::DrawSprite { x, y, sprite });
                    reply = Reply::Collided(true);
                },
                Request::RandomByte => reply = Reply::RandomByte(*random.next().unwrap()),
                Request::KeyDown { key: asked } => reply = Reply::KeyDown(asked == key),
            }
        }
    }
    shown
}

#[test]
fn a_program_that_consults_its_collaborators() {
    let program = [
        0x00, 0xE0, // 200: clear the screen
        0xC0, 0x0F, // 202: V0 = random & 0x0F
        0xF0, 0x29, // 204: I = glyph of V0
        0x61, 0x0A, // 206: V1 = 10
        0x62, 0x14, // 208: V2 = 20
        0xD1, 0x25, // 20A: draw 5 rows at (V1, V2)
        0x63, 0x07, // 20C: V3 = 7
        0xE3, 0x9E, // 20E: skip if key 7 is down
        0x64, 0x01, // 210: (skipped)
        0xE3, 0xA1, // 212: skip if key 7 is not down
        0x65, 0x01, // 214: V5 = 1
        0xF6, 0x0A, // 216: V6 = key press
        0x67, 0x01, // 218: V7 = 1
    ];
    let mut machine = machine_running(&program);
    let shown = drive(&mut machine, 11, &[0xAB], 7);
    assert_eq!(
        shown,
        vec![
            Request::ClearScreen,
            Request::DrawSprite { x: 10, y: 20, sprite: vec![0xE0, 0x90, 0xE0, 0x90, 0xE0] },
        ]
    );
    assert_eq!(v(&machine, 0), 0x0B);
    assert_eq!(machine.processor.registers().i(), 0x050 + 0x0B * 5);
    assert_eq!(v(&machine, 0xF), 1);
    assert_eq!(v(&machine, 4), 0);
    assert_eq!(v(&machine, 5), 1);
    assert_eq!(machine.processor.state(), State::AwaitingKey { x: 6 });
    assert_eq!(pc(&machine), 0x216);
    assert_eq!(drive(&mut machine, 3, &[], 7), vec![]);
    assert_eq!(pc(&machine), 0x216);
    assert!(Processor::resume(&mut machine, 0xE));
    assert_eq!(v(&machine, 6), 0xE);
    assert_eq!(pc(&machine), 0x218);
    assert_eq!(drive(&mut machine, 1, &[], 7), vec![]);
    assert_eq!(v(&machine, 7), 1);
    assert_eq!(pc(&machine), 0x21A);
}
