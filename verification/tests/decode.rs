use chip8::Opcode;

#[test]
fn decodes_the_whole_word_instructions() {
    assert_eq!(Opcode::from(0x00E0), Opcode::ClearScreen);
    assert_eq!(Opcode::from(0x00EE), Opcode::Return);
}

#[test]
fn decodes_a_jump() {
    assert_eq!(Opcode::from(0x1228), Opcode::Jump { n: 0x228 });
}

#[test]
fn decodes_a_load_immediate() {
    assert_eq!(Opcode::from(0x6A02), Opcode::LoadImmediate { x: 0xA, k: 0x02 });
}

#[test]
fn decodes_an_unknown_word_to_invalid() {
    assert_eq!(Opcode::from(0xFFFF), Opcode::Invalid { code: 0xFFFF });
}

#[test]
fn decodes_the_address_instructions() {
    assert_eq!(Opcode::from(0x0123), Opcode::MachineRoutine { n: 0x123 });
    assert_eq!(Opcode::from(0x0000), Opcode::MachineRoutine { n: 0x000 });
    assert_eq!(Opcode::from(0x00E1), Opcode::MachineRoutine { n: 0x0E1 });
    assert_eq!(Opcode::from(0x1FFF), Opcode::Jump { n: 0xFFF });
    assert_eq!(Opcode::from(0x2ABC), Opcode::Call { n: 0xABC });
    assert_eq!(Opcode::from(0xA050), Opcode::LoadIndex { n: 0x050 });
    assert_eq!(Opcode::from(0xB300), Opcode::JumpOffset { n: 0x300 });
}

#[test]
fn decodes_the_immediate_instructions() {
    assert_eq!(Opcode::from(0x3A7F), Opcode::SkipEqualImmediate { x: 0xA, k: 0x7F });
    assert_eq!(Opcode::from(0x4B80), Opcode::SkipNotEqualImmediate { x: 0xB, k: 0x80 });
    assert_eq!(Opcode::from(0x60FF), Opcode::LoadImmediate { x: 0x0, k: 0xFF });
    assert_eq!(Opcode::from(0x7F01), Opcode::AddImmediate { x: 0xF, k: 0x01 });
    assert_eq!(Opcode::from(0xC30F), Opcode::Random { x: 0x3, k: 0x0F });
}

#[test]
fn decodes_the_register_pair_instructions() {
    assert_eq!(Opcode::from(0x5120), Opcode::SkipEqual { x: 1, y: 2 });
    assert_eq!(Opcode::from(0x8120), Opcode::Load { x: 1, y: 2 });
    assert_eq!(Opcode::from(0x8121), Opcode::Or { x: 1, y: 2 });
    assert_eq!(Opcode::from(0x8122), Opcode::And { x: 1, y: 2 });
    assert_eq!(Opcode::from(0x8123), Opcode::Xor { x: 1, y: 2 });
    assert_eq!(Opcode::from(0x8014), Opcode::Add { x: 0, y: 1 });
    assert_eq!(Opcode::from(0x8AB5), Opcode::Subtract { x: 0xA, y: 0xB });
    assert_eq!(Opcode::from(0x8AB6), Opcode::ShiftRight { x: 0xA, y: 0xB });
    assert_eq!(Opcode::from(0x8AB7), Opcode::SubtractFrom { x: 0xA, y: 0xB });
    assert_eq!(Opcode::from(0x8ABE), Opcode::ShiftLeft { x: 0xA, y: 0xB });
    assert_eq!(Opcode::from(0x9EF0), Opcode::SkipNotEqual { x: 0xE, y: 0xF });
    assert_eq!(Opcode::from(0xD125), Opcode::Draw { x: 1, y: 2, n: 5 });
}

#[test]
fn decodes_the_key_and_timer_instructions() {
    assert_eq!(Opcode::from(0xE49E), Opcode::SkipKeyDown { x: 4 });
    assert_eq!(Opcode::from(0xE4A1), Opcode::SkipKeyUp { x: 4 });
    assert_eq!(Opcode::from(0xF507), Opcode::ReadDelayTimer { x: 5 });
    assert_eq!(Opcode::from(0xF50A), Opcode::AwaitKey { x: 5 });
    assert_eq!(Opcode::from(0xF515), Opcode::SetDelayTimer { x: 5 });
    assert_eq!(Opcode::from(0xF518), Opcode::SetSoundTimer { x: 5 });
    assert_eq!(Opcode::from(0xF51E), Opcode::AddIndex { x: 5 });
    assert_eq!(Opcode::from(0xF529), Opcode::LoadGlyph { x: 5 });
    assert_eq!(Opcode::from(0xF533), Opcode::StoreDecimal { x: 5 });
    assert_eq!(Opcode::from(0xF555), Opcode::StoreRegisters { x: 5 });
    assert_eq!(Opcode::from(0xF565), Opcode::LoadRegisters { x: 5 });
}

#[test]
fn decodes_words_outside_the_instruction_set_to_invalid() {
    let words = [
        0x5121u16, 0x512F, 0x8128, 0x812D, 0x812F, 0x9121, 0xE19F, 0xE100, 0xF100, 0xF166, 0xF1FF,
    ];
    for word in words {
        assert_eq!(Opcode::from(word), Opcode::Invalid { code: word });
    }
}

/// The word of an instruction, written out from its pattern.
fn word_of(op: Opcode) -> u16 {
    let at = |group: u16, x: u8, y: u8, n: u8| {
        group << 12 | (x as u16) << 8 | (y as u16) << 4 | n as u16
    };
    match op {
        Opcode::MachineRoutine { n } => n,
        Opcode::ClearScreen => 0x00E0,
        Opcode::Return => 0x00EE,
        Opcode::Jump { n } => 0x1000 | n,
        Opcode::Call { n } => 0x2000 | n,
        Opcode::SkipEqualImmediate { x, k } => at(0x3, x, 0, 0) | k as u16,
        Opcode::SkipNotEqualImmediate { x, k } => at(0x4, x, 0, 0) | k as u16,
        Opcode::SkipEqual { x, y } => at(0x5, x, y, 0x0),
        Opcode::LoadImmediate { x, k } => at(0x6, x, 0, 0) | k as u16,
        Opcode::AddImmediate { x, k } => at(0x7, x, 0, 0) | k as u16,
        Opcode::Load { x, y } => at(0x8, x, y, 0x0),
        Opcode::Or { x, y } => at(0x8, x, y, 0x1),
        Opcode::And { x, y } => at(0x8, x, y, 0x2),
        Opcode::Xor { x, y } => at(0x8, x, y, 0x3),
        Opcode::Add { x, y } => at(0x8, x, y, 0x4),
        Opcode::Subtract { x, y } => at(0x8, x, y, 0x5),
        Opcode::ShiftRight { x, y } => at(0x8, x, y, 0x6),
        Opcode::SubtractFrom { x, y } => at(0x8, x, y, 0x7),
        Opcode::ShiftLeft { x, y } => at(0x8, x, y, 0xE),
        Opcode::SkipNotEqual { x, y } => at(0x9, x, y, 0x0),
        Opcode::LoadIndex { n } => 0xA000 | n,
        Opcode::JumpOffset { n } => 0xB000 | n,
        Opcode::Random { x, k } => at(0xC, x, 0, 0) | k as u16,
        Opcode::Draw { x, y, n } => at(0xD, x, y, n),
        Opcode::SkipKeyDown { x } => at(0xE, x, 0x9, 0xE),
        Opcode::SkipKeyUp { x } => at(0xE, x, 0xA, 0x1),
        Opcode::ReadDelayTimer { x } => at(0xF, x, 0x0, 0x7),
        Opcode::AwaitKey { x } => at(0xF, x, 0x0, 0xA),
        Opcode::SetDelayTimer { x } => at(0xF, x, 0x1, 0x5),
        Opcode::SetSoundTimer { x } => at(0xF, x, 0x1, 0x8),
        Opcode::AddIndex { x } => at(0xF, x, 0x1, 0xE),
        Opcode::LoadGlyph { x } => at(0xF, x, 0x2, 0x9),
        Opcode::StoreDecimal { x } => at(0xF, x, 0x3, 0x3),
        Opcode::StoreRegisters { x } => at(0xF, x, 0x5, 0x5),
        Opcode::LoadRegisters { x } => at(0xF, x, 0x6, 0x5),
        Opcode::Invalid { code } => code,
    }
}

#[test]
fn every_word_decodes_to_an_instruction_that_stands_for_it() {
    let mut invalid = 0u32;
    for word in 0..=u16::MAX {
        let op = Opcode::from(word);
        assert_eq!(word_of(op), word);
        if let Opcode::Invalid { .. } = op {
            invalid += 1;
        }
    }
    // Groups 5 and 9 have 15 unused last nibbles each, group 8 has 7, for
    // 256 register pairs; groups E and F have 254 and 247 unused low bytes
    // for 16 registers.
    assert_eq!(invalid, 256 * (15 + 15 + 7) + 16 * (254 + 247));
}

#[test]
fn decoded_instructions_are_well_formed() {
    for word in 0..=u16::MAX {
        assert!(Opcode::from(word).is_well_formed());
    }
}

#[test]
fn operands_must_fit_their_fields() {
    assert!(Opcode::Jump { n: 0xFFF }.is_well_formed());
    assert!(!Opcode::Jump { n: 0x1000 }.is_well_formed());
    assert!(!Opcode::MachineRoutine { n: 0xFFFF }.is_well_formed());
    assert!(Opcode::LoadImmediate { x: 0xF, k: 0xFF }.is_well_formed());
    assert!(!Opcode::LoadImmediate { x: 0x10, k: 0 }.is_well_formed());
    assert!(Opcode::Add { x: 0xF, y: 0xF }.is_well_formed());
    assert!(!Opcode::Add { x: 0xF, y: 0x10 }.is_well_formed());
    assert!(!Opcode::Add { x: 0x10, y: 0xF }.is_well_formed());
    assert!(Opcode::Draw { x: 1, y: 2, n: 0xF }.is_well_formed());
    assert!(!Opcode::Draw { x: 1, y: 2, n: 0x10 }.is_well_formed());
    assert!(!Opcode::AwaitKey { x: 0xFF }.is_well_formed());
    assert!(Opcode::Invalid { code: 0xFFFF }.is_well_formed());
    assert!(Opcode::ClearScreen.is_well_formed());
}
