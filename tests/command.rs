use gbemu::command::{parse_debug_operation, CommandError, DebugCommand, Reg16, Reg8, Register};

#[test]
fn parse_simple_commands() {
    assert_eq!(parse_debug_operation("c"), Ok(DebugCommand::Continue));
    assert_eq!(parse_debug_operation("s\n"), Ok(DebugCommand::Step));
    assert_eq!(parse_debug_operation("q"), Ok(DebugCommand::Quit));
    assert_eq!(parse_debug_operation("pa"), Ok(DebugCommand::PrintCpuRegs));
    assert_eq!(parse_debug_operation("  c   extra "), Ok(DebugCommand::Continue));
}

#[test]
fn parse_empty_line_repeats() {
    assert_eq!(parse_debug_operation(""), Ok(DebugCommand::LastCommand));
    assert_eq!(parse_debug_operation(" \t \r\n"), Ok(DebugCommand::LastCommand));
}

#[test]
fn parse_breakpoint() {
    assert_eq!(parse_debug_operation("b 0150"), Ok(DebugCommand::SetBreakpoint(0x0150)));
    assert_eq!(parse_debug_operation("b\tFFfe\n"), Ok(DebugCommand::SetBreakpoint(0xfffe)));
    assert_eq!(parse_debug_operation("b +10"), Ok(DebugCommand::SetBreakpoint(0x10)));
    assert_eq!(parse_debug_operation("b 0000ffff"), Ok(DebugCommand::SetBreakpoint(0xffff)));
}

#[test]
fn parse_breakpoint_errors() {
    assert_eq!(parse_debug_operation("b"), Err(CommandError::BreakpointSyntax));
    assert_eq!(parse_debug_operation("b 1 2"), Err(CommandError::BreakpointSyntax));
    assert_eq!(parse_debug_operation("b 10000"), Err(CommandError::InvalidAddress));
    assert_eq!(parse_debug_operation("b 01g0"), Err(CommandError::InvalidAddress));
    assert_eq!(parse_debug_operation("b +"), Err(CommandError::InvalidAddress));
    assert_eq!(parse_debug_operation("b -1"), Err(CommandError::InvalidAddress));
}

#[test]
fn parse_register_lowercase_pair() {
    assert_eq!(
        parse_debug_operation("p hl"),
        Ok(DebugCommand::PrintRegister(Register::Register16(Reg16::HL)))
    );
}

#[test]
fn parse_registers_any_case() {
    let eight = [
        ("a", Reg8::A),
        ("F", Reg8::F),
        ("b", Reg8::B),
        ("C", Reg8::C),
        ("d", Reg8::D),
        ("e", Reg8::E),
        ("H", Reg8::H),
        ("l", Reg8::L),
    ];
    for (name, r) in eight {
        let line = format!("p {}", name);
        assert_eq!(
            parse_debug_operation(&line),
            Ok(DebugCommand::PrintRegister(Register::Register8(r)))
        );
    }
    let sixteen = [
        ("sp", Reg16::SP),
        ("Pc", Reg16::PC),
        ("bC", Reg16::BC),
        ("DE", Reg16::DE),
        ("hL", Reg16::HL),
    ];
    for (name, r) in sixteen {
        let line = format!("p {}", name);
        assert_eq!(
            parse_debug_operation(&line),
            Ok(DebugCommand::PrintRegister(Register::Register16(r)))
        );
    }
}

#[test]
fn parse_register_errors() {
    assert_eq!(parse_debug_operation("p"), Err(CommandError::PrintSyntax));
    assert_eq!(parse_debug_operation("p a b"), Err(CommandError::PrintSyntax));
    assert_eq!(parse_debug_operation("p x"), Err(CommandError::UnknownRegister));
    assert_eq!(parse_debug_operation("p hlx"), Err(CommandError::UnknownRegister));
    assert_eq!(parse_debug_operation("p af"), Err(CommandError::UnknownRegister));
}

#[test]
fn parse_disassemble() {
    assert_eq!(parse_debug_operation("d 10"), Ok(DebugCommand::Disassemble(10)));
    assert_eq!(parse_debug_operation("d 65535"), Ok(DebugCommand::Disassemble(65535)));
    assert_eq!(parse_debug_operation("d"), Err(CommandError::DisassembleSyntax));
    assert_eq!(parse_debug_operation("d 1 2"), Err(CommandError::DisassembleSyntax));
    assert_eq!(parse_debug_operation("d 65536"), Err(CommandError::InvalidCount));
    assert_eq!(parse_debug_operation("d 1a"), Err(CommandError::InvalidCount));
}

#[test]
fn parse_unknown_command() {
    assert_eq!(parse_debug_operation("x"), Err(CommandError::UnknownCommand));
    assert_eq!(parse_debug_operation("C"), Err(CommandError::UnknownCommand));
    assert_eq!(parse_debug_operation("step"), Err(CommandError::UnknownCommand));
}

#[test]
fn parse_unicode_whitespace_separates() {
    assert_eq!(parse_debug_operation("b\u{a0}0150"), Ok(DebugCommand::SetBreakpoint(0x0150)));
    assert_eq!(parse_debug_operation("\u{3000}s"), Ok(DebugCommand::Step));
}
