use vstd::prelude::*;

verus! {

/// The 8-bit registers of the processing core.
#[derive(Clone, Copy, Debug, PartialEq, Eq, Structural)]
pub enum Reg8 {
    A,
    F,
    B,
    C,
    D,
    E,
    H,
    L,
}

/// The 16-bit registers and register pairs of the processing core.
#[derive(Clone, Copy, Debug, PartialEq, Eq, Structural)]
pub enum Reg16 {
    SP,
    PC,
    BC,
    DE,
    HL,
}

/// A register addressed by name, of either width.
#[derive(Clone, Copy, Debug, PartialEq, Eq, Structural)]
pub enum Register {
    Register8(Reg8),
    Register16(Reg16),
}

/// One debugger command.
#[derive(Clone, Copy, Debug, PartialEq, Eq, Structural)]
pub enum DebugCommand {
    /// Step until the program counter reaches a breakpoint.
    Continue,
    /// Toggle a breakpoint at an instruction address.
    SetBreakpoint(u16),
    /// Show one register.
    PrintRegister(Register),
    Quit,
    /// Show the next n instructions without executing them.
    Disassemble(u16),
    /// Show the whole register file.
    PrintCpuRegs,
    /// Execute one instruction.
    Step,
    /// Repeat the last command (an empty line).
    LastCommand,
}

/// Why a line is not a command.
#[derive(Clone, Copy, Debug, PartialEq, Eq, Structural)]
pub enum CommandError {
    /// The first word names no command.
    UnknownCommand,
    /// `b` without exactly one argument.
    BreakpointSyntax,
    /// The argument of `b` is not a 16-bit hexadecimal number.
    InvalidAddress,
    /// `p` without exactly one argument.
    PrintSyntax,
    /// The argument of `p` names no register.
    UnknownRegister,
    /// `d` without exactly one argument.
    DisassembleSyntax,
    /// The argument of `d` is not a 16-bit decimal number.
    InvalidCount,
}

/// The characters that separate words: Unicode's White_Space property.
pub open spec fn is_space(c: char) -> bool {
    c == ' ' || ('\t' <= c && c <= '\r') || c == '\u{85}' || c == '\u{a0}' || c == '\u{1680}'
        || ('\u{2000}' <= c && c <= '\u{200a}') || c == '\u{2028}' || c == '\u{2029}' || c
        == '\u{202f}' || c == '\u{205f}' || c == '\u{3000}'
}

/// Reading `s` from the left: the words completed so far, and the word being read.
pub open spec fn scan_words(s: Seq<char>) -> (Seq<Seq<char>>, Seq<char>)
    decreases s.len(),
{
    if s.len() == 0 {
        (seq![], seq![])
    } else {
        let (done, cur) = scan_words(s.drop_last());
        if !is_space(s.last()) {
            (done, cur.push(s.last()))
        } else if cur.len() > 0 {
            (done.push(cur), seq![])
        } else {
            (done, cur)
        }
    }
}

/// The maximal runs of non-space characters of `s`, in order.
pub open spec fn words(s: Seq<char>) -> Seq<Seq<char>> {
    let (done, cur) = scan_words(s);
    if cur.len() > 0 {
        done.push(cur)
    } else {
        done
    }
}

/// The value of a digit in the given radix (at most 16).
pub open spec fn digit_value(c: char, radix: u32) -> Option<u32> {
    let d: Option<u32> = if '0' <= c && c <= '9' {
        Some((c as u32 - '0' as u32) as u32)
    } else if 'a' <= c && c <= 'f' {
        Some((c as u32 - 'a' as u32 + 10) as u32)
    } else if 'A' <= c && c <= 'F' {
        Some((c as u32 - 'A' as u32 + 10) as u32)
    } else {
        None
    };
    match d {
        Some(v) => if v < radix {
            Some(v)
        } else {
            None
        },
        None => None,
    }
}

/// Every character of `s` is a digit in the radix.
pub open spec fn all_digits(s: Seq<char>, radix: u32) -> bool {
    forall|i: int| 0 <= i < s.len() ==> (#[trigger] digit_value(s[i], radix)) is Some
}

/// The number that the digits of `s` spell, most significant first.
pub open spec fn digits_value(s: Seq<char>, radix: u32) -> nat
    decreases s.len(),
{
    if s.len() == 0 {
        0
    } else {
        digits_value(s.drop_last(), radix) * (radix as nat) + match digit_value(s.last(), radix) {
            Some(d) => d as nat,
            None => 0,
        }
    }
}

/// `s` without a leading plus sign.
pub open spec fn unsigned_digits(s: Seq<char>) -> Seq<char> {
    if s.len() > 0 && s[0] == '+' {
        s.drop_first()
    } else {
        s
    }
}

/// A 16-bit number written in the radix: an optional plus sign and at least one
/// digit, of a value that fits in 16 bits.
pub open spec fn number_value(s: Seq<char>, radix: u32) -> Option<u16> {
    let d = unsigned_digits(s);
    if d.len() > 0 && all_digits(d, radix) && digits_value(d, radix) <= 0xffff {
        Some(digits_value(d, radix) as u16)
    } else {
        None
    }
}

/// `c` is the letter given in upper and lower case.
pub open spec fn letter_is(c: char, upper: char, lower: char) -> bool {
    c == upper || c == lower
}

/// The register that `w` names, in any mix of upper and lower case.
pub open spec fn register_named(w: Seq<char>) -> Option<Register> {
    if w.len() == 1 {
        let c = w[0];
        if letter_is(c, 'A', 'a') {
            Some(Register::Register8(Reg8::A))
        } else if letter_is(c, 'F', 'f') {
            Some(Register::Register8(Reg8::F))
        } else if letter_is(c, 'B', 'b') {
            Some(Register::Register8(Reg8::B))
        } else if letter_is(c, 'C', 'c') {
            Some(Register::Register8(Reg8::C))
        } else if letter_is(c, 'D', 'd') {
            Some(Register::Register8(Reg8::D))
        } else if letter_is(c, 'E', 'e') {
            Some(Register::Register8(Reg8::E))
        } else if letter_is(c, 'H', 'h') {
            Some(Register::Register8(Reg8::H))
        } else if letter_is(c, 'L', 'l') {
            Some(Register::Register8(Reg8::L))
        } else {
            None
        }
    } else if w.len() == 2 {
        let (c, d) = (w[0], w[1]);
        if letter_is(c, 'S', 's') && letter_is(d, 'P', 'p') {
            Some(Register::Register16(Reg16::SP))
        } else if letter_is(c, 'P', 'p') && letter_is(d, 'C', 'c') {
            Some(Register::Register16(Reg16::PC))
        } else if letter_is(c, 'B', 'b') && letter_is(d, 'C', 'c') {
            Some(Register::Register16(Reg16::BC))
        } else if letter_is(c, 'D', 'd') && letter_is(d, 'E', 'e') {
            Some(Register::Register16(Reg16::DE))
        } else if letter_is(c, 'H', 'h') && letter_is(d, 'L', 'l') {
            Some(Register::Register16(Reg16::HL))
        } else {
            None
        }
    } else {
        None
    }
}

/// The command that a list of words gives. Words after a command that takes no
/// argument are ignored.
pub open spec fn command_of_words(ws: Seq<Seq<char>>) -> Result<DebugCommand, CommandError> {
    if ws.len() == 0 {
        Ok(DebugCommand::LastCommand)
    } else {
        let head = ws[0];
        if head == seq!['c'] {
            Ok(DebugCommand::Continue)
        } else if head == seq!['b'] {
            if ws.len() != 2 {
                Err(CommandError::BreakpointSyntax)
            } else {
                match number_value(ws[1], 16) {
                    Some(a) => Ok(DebugCommand::SetBreakpoint(a)),
                    None => Err(CommandError::InvalidAddress),
                }
            }
        } else if head == seq!['p', 'a'] {
            Ok(DebugCommand::PrintCpuRegs)
        } else if head == seq!['p'] {
            if ws.len() != 2 {
                Err(CommandError::PrintSyntax)
            } else {
                match register_named(ws[1]) {
                    Some(r) => Ok(DebugCommand::PrintRegister(r)),
                    None => Err(CommandError::UnknownRegister),
                }
            }
        } else if head == seq!['q'] {
            Ok(DebugCommand::Quit)
        } else if head == seq!['d'] {
            if ws.len() != 2 {
                Err(CommandError::DisassembleSyntax)
            } else {
                match number_value(ws[1], 10) {
                    Some(n) => Ok(DebugCommand::Disassemble(n)),
                    None => Err(CommandError::InvalidCount),
                }
            }
        } else if head == seq!['s'] {
            Ok(DebugCommand::Step)
        } else {
            Err(CommandError::UnknownCommand)
        }
    }
}

/// The command that one input line gives.
pub open spec fn command_of(line: Seq<char>) -> Result<DebugCommand, CommandError> {
    command_of_words(words(line))
}

/// The views of a list of character vectors.
pub open spec fn views(v: Seq<Vec<char>>) -> Seq<Seq<char>> {
    v.map_values(|w: Vec<char>| w@)
}

fn is_space_char(c: char) -> (r: bool)
    ensures
        r == is_space(c),
{
    c == ' ' || ('\t' <= c && c <= '\r') || c == '\u{85}' || c == '\u{a0}' || c == '\u{1680}'
        || ('\u{2000}' <= c && c <= '\u{200a}') || c == '\u{2028}' || c == '\u{2029}' || c
        == '\u{202f}' || c == '\u{205f}' || c == '\u{3000}'
}

/// The characters of a string, in order.
pub fn chars_of(s: &str) -> (r: Vec<char>)
    ensures
        r@ == s@,
{
    let n = s.unicode_len();
    let mut out: Vec<char> = Vec::new();
    let mut i: usize = 0;
    while i < n
        invariant
            n == s@.len(),
            i <= n,
            out@ == s@.take(i as int),
        decreases n - i,
    {
        out.push(s.get_char(i));
        i = i + 1;
        assert(out@ =~= s@.take(i as int));
    }
    assert(out@ =~= s@);
    out
}

/// Splits a line into its whitespace-separated words.
pub fn split_words(s: &Vec<char>) -> (r: Vec<Vec<char>>)
    ensures
        views(r@) == words(s@),
{
    let mut done: Vec<Vec<char>> = Vec::new();
    let mut cur: Vec<char> = Vec::new();
    let mut i: usize = 0;
    while i < s.len()
        invariant
            i <= s@.len(),
            views(done@) == scan_words(s@.take(i as int)).0,
            cur@ == scan_words(s@.take(i as int)).1,
        decreases s@.len() - i,
    {
        let c = s[i];
        assert(s@.take(i + 1).drop_last() =~= s@.take(i as int));
        if !is_space_char(c) {
            cur.push(c);
        } else if cur.len() > 0 {
            let ghost prev = done@;
            done.push(cur);
            assert(views(done@) =~= views(prev).push(cur@));
            cur = Vec::new();
        }
        i = i + 1;
    }
    assert(s@.take(i as int) =~= s@);
    if cur.len() > 0 {
        let ghost prev = done@;
        done.push(cur);
        assert(views(done@) =~= views(prev).push(cur@));
    }
    done
}

fn digit_of(c: char, radix: u32) -> (r: Option<u32>)
    requires
        radix <= 16,
    ensures
        r == digit_value(c, radix),
{
    let d: Option<u32> = if '0' <= c && c <= '9' {
        Some(c as u32 - '0' as u32)
    } else if 'a' <= c && c <= 'f' {
        Some(c as u32 - 'a' as u32 + 10)
    } else if 'A' <= c && c <= 'F' {
        Some(c as u32 - 'A' as u32 + 10)
    } else {
        None
    };
    match d {
        Some(v) => if v < radix {
            Some(v)
        } else {
            None
        },
        None => None,
    }
}

/// Reads a 16-bit number in the radix: an optional plus sign, then digits.
pub fn parse_number(w: &Vec<char>, radix: u32) -> (r: Option<u16>)
    requires
        2 <= radix <= 16,
    ensures
        r == number_value(w@, radix),
{
    let start: usize = if w.len() > 0 && w[0] == '+' {
        1
    } else {
        0
    };
    let ghost d = unsigned_digits(w@);
    assert(d =~= w@.skip(start as int));
    if start >= w.len() {
        return None;
    }
    let mut acc: u32 = 0;
    let mut overflow = false;
    let mut i: usize = start;
    while i < w.len()
        invariant
            start <= i <= w@.len(),
            d == w@.skip(start as int),
            d == unsigned_digits(w@),
            2 <= radix <= 16,
            all_digits(d.take(i - start), radix),
            !overflow ==> acc == digits_value(d.take(i - start), radix) && acc <= 0xffff,
            overflow ==> digits_value(d.take(i - start), radix) > 0xffff,
        decreases w@.len() - i,
    {
        let ghost k: int = i - start;
        assert(d.take(k + 1).drop_last() =~= d.take(k));
        assert(d.take(k + 1).last() == w@[i as int]);
        match digit_of(w[i], radix) {
            None => {
                assert(d[k] == w@[i as int]);
                assert(digit_value(d[k], radix) is None);
                return None;
            },
            Some(v) => {
                let ghost prev = digits_value(d.take(k), radix);
                assert(digits_value(d.take(k + 1), radix) == prev * (radix as nat) + v);
                if !overflow {
                    assert(acc * radix + v <= 0xffff * 16 + 15) by (nonlinear_arith)
                        requires
                            acc <= 0xffff,
                            radix <= 16,
                            v < 16,
                    ;
                    acc = acc * radix + v;
                    if acc > 0xffff {
                        overflow = true;
                    }
                } else {
                    assert(prev * (radix as nat) + v > 0xffff) by (nonlinear_arith)
                        requires
                            prev > 0xffff,
                            radix >= 2,
                    ;
                }
                assert forall|j: int| 0 <= j < d.take(k + 1).len() implies (#[trigger] digit_value(
                    d.take(k + 1)[j],
                    radix,
                )) is Some by {
                    if j < k {
                        assert(d.take(k + 1)[j] == d.take(k)[j]);
                    }
                }
            },
        }
        i = i + 1;
    }
    assert(d.take(i - start) =~= d);
    if overflow {
        None
    } else {
        Some(acc as u16)
    }
}

fn is_letter(c: char, upper: char, lower: char) -> (r: bool)
    ensures
        r == letter_is(c, upper, lower),
{
    c == upper || c == lower
}

/// The register that a word names, in any mix of upper and lower case.
pub fn parse_register(w: &Vec<char>) -> (r: Option<Register>)
    ensures
        r == register_named(w@),
{
    if w.len() == 1 {
        let c = w[0];
        if is_letter(c, 'A', 'a') {
            Some(Register::Register8(Reg8::A))
        } else if is_letter(c, 'F', 'f') {
            Some(Register::Register8(Reg8::F))
        } else if is_letter(c, 'B', 'b') {
            Some(Register::Register8(Reg8::B))
        } else if is_letter(c, 'C', 'c') {
            Some(Register::Register8(Reg8::C))
        } else if is_letter(c, 'D', 'd') {
            Some(Register::Register8(Reg8::D))
        } else if is_letter(c, 'E', 'e') {
            Some(Register::Register8(Reg8::E))
        } else if is_letter(c, 'H', 'h') {
            Some(Register::Register8(Reg8::H))
        } else if is_letter(c, 'L', 'l') {
            Some(Register::Register8(Reg8::L))
        } else {
            None
        }
    } else if w.len() == 2 {
        let c = w[0];
        let d = w[1];
        if is_letter(c, 'S', 's') && is_letter(d, 'P', 'p') {
            Some(Register::Register16(Reg16::SP))
        } else if is_letter(c, 'P', 'p') && is_letter(d, 'C', 'c') {
            Some(Register::Register16(Reg16::PC))
        } else if is_letter(c, 'B', 'b') && is_letter(d, 'C', 'c') {
            Some(Register::Register16(Reg16::BC))
        } else if is_letter(c, 'D', 'd') && is_letter(d, 'E', 'e') {
            Some(Register::Register16(Reg16::DE))
        } else if is_letter(c, 'H', 'h') && is_letter(d, 'L', 'l') {
            Some(Register::Register16(Reg16::HL))
        } else {
            None
        }
    } else {
        None
    }
}

fn is_word1(w: &Vec<char>, a: char) -> (r: bool)
    ensures
        r == (w@ == seq![a]),
{
    if w.len() == 1 && w[0] == a {
        assert(w@ =~= seq![a]);
        true
    } else {
        false
    }
}

fn is_word2(w: &Vec<char>, a: char, b: char) -> (r: bool)
    ensures
        r == (w@ == seq![a, b]),
{
    if w.len() == 2 && w[0] == a && w[1] == b {
        assert(w@ =~= seq![a, b]);
        true
    } else {
        false
    }
}

/// The command that a list of words gives.
pub fn parse_words(ws: &Vec<Vec<char>>) -> (r: Result<DebugCommand, CommandError>)
    ensures
        r == command_of_words(views(ws@)),
{
    let ghost vs = views(ws@);
    if ws.len() == 0 {
        return Ok(DebugCommand::LastCommand);
    }
    assert(vs[0] == ws@[0]@);
    let head = &ws[0];
    if is_word1(head, 'c') {
        Ok(DebugCommand::Continue)
    } else if is_word1(head, 'b') {
        if ws.len() != 2 {
            Err(CommandError::BreakpointSyntax)
        } else {
            assert(vs[1] == ws@[1]@);
            match parse_number(&ws[1], 16) {
                Some(a) => Ok(DebugCommand::SetBreakpoint(a)),
                None => Err(CommandError::InvalidAddress),
            }
        }
    } else if is_word2(head, 'p', 'a') {
        Ok(DebugCommand::PrintCpuRegs)
    } else if is_word1(head, 'p') {
        if ws.len() != 2 {
            Err(CommandError::PrintSyntax)
        } else {
            assert(vs[1] == ws@[1]@);
            match parse_register(&ws[1]) {
                Some(r) => Ok(DebugCommand::PrintRegister(r)),
                None => Err(CommandError::UnknownRegister),
            }
        }
    } else if is_word1(head, 'q') {
        Ok(DebugCommand::Quit)
    } else if is_word1(head, 'd') {
        if ws.len() != 2 {
            Err(CommandError::DisassembleSyntax)
        } else {
            assert(vs[1] == ws@[1]@);
            match parse_number(&ws[1], 10) {
                Some(n) => Ok(DebugCommand::Disassemble(n)),
                None => Err(CommandError::InvalidCount),
            }
        }
    } else if is_word1(head, 's') {
        Ok(DebugCommand::Step)
    } else {
        Err(CommandError::UnknownCommand)
    }
}

/// The command that one line of debugger input gives. An empty line asks for the
/// last command again.
pub fn parse_debug_operation(input: &str) -> (r: Result<DebugCommand, CommandError>)
    ensures
        r == command_of(input@),
{
    let chars = chars_of(input);
    let ws = split_words(&chars);
    parse_words(&ws)
}

} // verus!
