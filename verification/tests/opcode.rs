use dichonoia::gateway::opcode::Opcode;

#[test]
fn known_codes_map_to_their_opcodes() {
    assert_eq!(Opcode::from_code(0), Opcode::Dispatch);
    assert_eq!(Opcode::from_code(10), Opcode::Hello);
    assert_eq!(Opcode::from_code(11), Opcode::HeartbeatAck);
    assert_eq!(Opcode::from_code(31), Opcode::RequestSoundboardSounds);
}

#[test]
fn undefined_codes_are_unrecognized() {
    assert_eq!(Opcode::from_code(5), Opcode::Unrecognized(5));
    assert_eq!(Opcode::from_code(-1), Opcode::Unrecognized(-1));
    assert!(!Opcode::from_code(12).is_known());
}

#[test]
fn code_undoes_from_code() {
    for code in -5..40 {
        assert_eq!(Opcode::from_code(code).code(), code);
    }
}
