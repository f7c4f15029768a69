use bmc::instructions::{DecodeError, Instr};

#[test]
fn decode_recognizes_every_opcode() {
    assert_eq!(Instr::decode(0x0fff), Ok(Instr::NoOp));
    assert_eq!(Instr::decode(0x1a05), Ok(Instr::LoadMemory(0xa, 0x05)));
    assert_eq!(Instr::decode(0x2005), Ok(Instr::LoadValue(0x0, 0x05)));
    assert_eq!(Instr::decode(0x3b2c), Ok(Instr::StoreMemory(0xb, 0x2c)));
    assert_eq!(Instr::decode(0x4012), Ok(Instr::MoveRegister(0x1, 0x2)));
    assert_eq!(Instr::decode(0x5123), Ok(Instr::AddInteger(0x1, 0x2, 0x3)));
    assert_eq!(Instr::decode(0x6123), Ok(Instr::AddFloat(0x1, 0x2, 0x3)));
    assert_eq!(Instr::decode(0x7123), Ok(Instr::BitwiseOr(0x1, 0x2, 0x3)));
    assert_eq!(Instr::decode(0x8123), Ok(Instr::BitwiseAnd(0x1, 0x2, 0x3)));
    assert_eq!(Instr::decode(0x9123), Ok(Instr::BitwiseXor(0x1, 0x2, 0x3)));
    assert_eq!(Instr::decode(0xa205), Ok(Instr::BitwiseRotate(0x2, 0x5)));
    assert_eq!(Instr::decode(0xb004), Ok(Instr::Jump(0x04)));
    assert_eq!(Instr::decode(0xb104), Ok(Instr::JumpIfEq(0x1, 0x04)));
    assert_eq!(Instr::decode(0xc000), Ok(Instr::Halt));
    assert_eq!(Instr::decode(0xd012), Ok(Instr::LoadIndirect(0x1, 0x2)));
    assert_eq!(Instr::decode(0xe012), Ok(Instr::StoreIndirect(0x1, 0x2)));
    assert_eq!(Instr::decode(0xf003), Ok(Instr::JumpIndirect(0x3)));
    assert_eq!(Instr::decode(0xf123), Ok(Instr::JumpWithTest(0x1, 0x2, 0x3)));
}

#[test]
fn decode_null_word_is_the_null_error() {
    assert_eq!(Instr::decode(0x0000), Err(DecodeError::NullInstruction));
}

#[test]
fn decode_unmatched_words_are_invalid() {
    assert_eq!(Instr::decode(0x0001), Err(DecodeError::InvalidInstruction(0x0001)));
    assert_eq!(Instr::decode(0x4100), Err(DecodeError::InvalidInstruction(0x4100)));
    assert_eq!(Instr::decode(0xa215), Err(DecodeError::InvalidInstruction(0xa215)));
    assert_eq!(Instr::decode(0xc001), Err(DecodeError::InvalidInstruction(0xc001)));
    assert_eq!(Instr::decode(0xd112), Err(DecodeError::InvalidInstruction(0xd112)));
    assert_eq!(Instr::decode(0xe112), Err(DecodeError::InvalidInstruction(0xe112)));
}

#[test]
fn encode_shifts_fields_into_place() {
    assert_eq!(Instr::NoOp.encode(), 0x0fff);
    assert_eq!(Instr::Halt.encode(), 0xc000);
    assert_eq!(Instr::LoadValue(0xa, 0x05).encode(), 0x2a05);
    assert_eq!(Instr::AddInteger(0x1, 0x2, 0x3).encode(), 0x5123);
    assert_eq!(Instr::Jump(0x04).encode(), 0xb004);
}

#[test]
fn decode_inverts_encode() {
    let samples = vec![
        Instr::NoOp,
        Instr::LoadMemory(0xf, 0xff),
        Instr::LoadValue(0x0, 0x00),
        Instr::LoadIndirect(0x1, 0x2),
        Instr::StoreMemory(0x3, 0x44),
        Instr::StoreIndirect(0x5, 0x6),
        Instr::MoveRegister(0x7, 0x8),
        Instr::AddInteger(0x9, 0xa, 0xb),
        Instr::AddFloat(0xc, 0xd, 0xe),
        Instr::BitwiseOr(0xf, 0x0, 0x1),
        Instr::BitwiseAnd(0x2, 0x3, 0x4),
        Instr::BitwiseXor(0x5, 0x6, 0x7),
        Instr::BitwiseRotate(0x8, 0x9),
        Instr::Jump(0xab),
        Instr::JumpIndirect(0xc),
        Instr::JumpIfEq(0xd, 0xef),
        Instr::JumpWithTest(0x1, 0x0, 0x2),
        Instr::Halt,
    ];
    for instr in samples {
        assert_eq!(Instr::decode(instr.encode()), Ok(instr));
    }
}

#[test]
fn aliased_operand_shapes_decode_to_the_prior_pattern() {
    assert_eq!(
        Instr::decode(Instr::JumpIfEq(0x0, 0x04).encode()),
        Ok(Instr::Jump(0x04))
    );
    assert_eq!(
        Instr::decode(Instr::JumpWithTest(0x0, 0x0, 0x3).encode()),
        Ok(Instr::JumpIndirect(0x3))
    );
}
