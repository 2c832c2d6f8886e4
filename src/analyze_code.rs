//! The assembler front end: operand classification, line decoding and the
//! assembly of a whole program into an instruction list.

use vstd::prelude::*;

verus! {

/// The mnemonics of the processor, plus two pseudo-opcodes: `LABEL` marks a
/// line that only declares a jump target, and `DRW` yields to the renderer.
#[derive(Clone, Copy, Debug, PartialEq, Eq, Structural)]
pub enum Opcode {
    ADC, AND, ASL, BCC, BCS, BEQ, BIT, BMI,
    BNE, BPL, BRK, BVC, BVS, CLC, CLD, CLI,
    CLV, CMP, CPX, CPY, DEC, DEX, DEY, EOR,
    INC, INX, INY, JMP, JSR, LDA, LDX, LDY,
    LSR, NOP, ORA, PHA, PLA, PHP, PLP, ROL,
    ROR, RTS, SBC, SEC, SED, SEI, STA, STX,
    STY, TAX, TAY, TSX, TXA, TXS, TYA,
    LABEL, DRW,
}

/// How an instruction's operand is located.
#[derive(Clone, Copy, Debug, PartialEq, Eq, Structural)]
pub enum AddressingMode {
    Immediate,
    ZeroPage,
    ZeroPageX,
    ZeroPageY,
    Absolute,
    AbsoluteX,
    AbsoluteY,
    IndirectX,
    IndirectY,
    Relative,
    Implied,
}

/// Why a line could not be decoded.
#[derive(Clone, Copy, Debug, PartialEq, Eq, Structural)]
pub enum DecodeErrorKind {
    /// The first three characters name no opcode.
    UnknownMnemonic,
    /// The operand fits none of the operand forms.
    MalformedOperand,
    /// A digit field of the operand holds a character that is not a hex digit.
    InvalidHexDigit,
}

/// A decoding failure and the index of the line it occurred on.
#[derive(Clone, Copy, Debug, PartialEq, Eq, Structural)]
pub struct DecodeError {
    pub line: usize,
    pub kind: DecodeErrorKind,
}

/// Value carried by operands that hold no number (`Implied`, `Relative`).
pub const NO_VALUE: u16 = 0xFFFF;

/// One decoded program line. `value` is the numeric operand (meaningless for
/// `Implied` and `Relative`); `label_name` is the declared name for `LABEL`
/// and the operand text otherwise, which for jumps and branches is the
/// destination label.
#[derive(Clone, Debug)]
pub struct Instruction {
    pub opcode: Opcode,
    pub addressing_mode: AddressingMode,
    pub value: u16,
    pub label_name: String,
}

/// An [`Instruction`] with its label name as a character sequence.
pub struct InstructionView {
    pub opcode: Opcode,
    pub addressing_mode: AddressingMode,
    pub value: u16,
    pub label_name: Seq<char>,
}

impl View for Instruction {
    type V = InstructionView;

    open spec fn view(&self) -> InstructionView {
        InstructionView {
            opcode: self.opcode,
            addressing_mode: self.addressing_mode,
            value: self.value,
            label_name: self.label_name@,
        }
    }
}

// ---------------------------------------------------------------------------
// Character-level helpers
// ---------------------------------------------------------------------------

/// Characters that separate tokens and are ignored inside operands.
pub open spec fn is_blank(c: char) -> bool {
    c == ' ' || c == '\t' || c == '\r'
}

/// `s` with every blank character removed.
pub open spec fn remove_blanks(s: Seq<char>) -> Seq<char>
    decreases s.len(),
{
    if s.len() == 0 {
        s
    } else {
        let rest = remove_blanks(s.drop_last());
        if is_blank(s.last()) {
            rest
        } else {
            rest.push(s.last())
        }
    }
}

/// `s` without its leading blanks.
pub open spec fn trim_start(s: Seq<char>) -> Seq<char>
    decreases s.len(),
{
    if s.len() > 0 && is_blank(s[0]) {
        trim_start(s.drop_first())
    } else {
        s
    }
}

/// `s` without its trailing blanks.
pub open spec fn trim_end(s: Seq<char>) -> Seq<char>
    decreases s.len(),
{
    if s.len() > 0 && is_blank(s.last()) {
        trim_end(s.drop_last())
    } else {
        s
    }
}

/// `s` without leading and trailing blanks.
pub open spec fn trim(s: Seq<char>) -> Seq<char> {
    trim_end(trim_start(s))
}

/// The value of a hexadecimal digit, in either case.
pub open spec fn hex_digit_value(c: char) -> Option<u8> {
    if '0' <= c && c <= '9' {
        Some((c as u32 - '0' as u32) as u8)
    } else if 'A' <= c && c <= 'F' {
        Some((c as u32 - 'A' as u32 + 10) as u8)
    } else if 'a' <= c && c <= 'f' {
        Some((c as u32 - 'a' as u32 + 10) as u8)
    } else {
        None
    }
}

/// The two hex digits at `start` read as one byte.
pub open spec fn hex_byte_at(t: Seq<char>, start: int) -> Result<u16, DecodeErrorKind> {
    if start < 0 || start + 2 > t.len() {
        Err(DecodeErrorKind::MalformedOperand)
    } else {
        match (hex_digit_value(t[start]), hex_digit_value(t[start + 1])) {
            (Some(h), Some(l)) => Ok((h * 16 + l) as u16),
            _ => Err(DecodeErrorKind::InvalidHexDigit),
        }
    }
}

/// The four hex digits at `start` read as one 16-bit word, high byte first.
pub open spec fn hex_word_at(t: Seq<char>, start: int) -> Result<u16, DecodeErrorKind> {
    match (hex_byte_at(t, start), hex_byte_at(t, start + 2)) {
        (Ok(h), Ok(l)) => Ok((h * 256 + l) as u16),
        (Err(e), _) => Err(e),
        (_, Err(e)) => Err(e),
    }
}

// ---------------------------------------------------------------------------
// Opcodes
// ---------------------------------------------------------------------------

/// The opcode table: the opcode that a three-character mnemonic names.
/// Matching is case-sensitive; `LABEL` has no mnemonic.
pub open spec fn opcode_from_mnemonic(m: Seq<char>) -> Option<Opcode> {
    if m.len() != 3 {
        None
    } else {
        match (m[0], m[1], m[2]) {
            ('A', 'D', 'C') => Some(Opcode::ADC),
            ('A', 'N', 'D') => Some(Opcode::AND),
            ('A', 'S', 'L') => Some(Opcode::ASL),
            ('B', 'C', 'C') => Some(Opcode::BCC),
            ('B', 'C', 'S') => Some(Opcode::BCS),
            ('B', 'E', 'Q') => Some(Opcode::BEQ),
            ('B', 'I', 'T') => Some(Opcode::BIT),
            ('B', 'M', 'I') => Some(Opcode::BMI),
            ('B', 'N', 'E') => Some(Opcode::BNE),
            ('B', 'P', 'L') => Some(Opcode::BPL),
            ('B', 'R', 'K') => Some(Opcode::BRK),
            ('B', 'V', 'C') => Some(Opcode::BVC),
            ('B', 'V', 'S') => Some(Opcode::BVS),
            ('C', 'L', 'C') => Some(Opcode::CLC),
            ('C', 'L', 'D') => Some(Opcode::CLD),
            ('C', 'L', 'I') => Some(Opcode::CLI),
            ('C', 'L', 'V') => Some(Opcode::CLV),
            ('C', 'M', 'P') => Some(Opcode::CMP),
            ('C', 'P', 'X') => Some(Opcode::CPX),
            ('C', 'P', 'Y') => Some(Opcode::CPY),
            ('D', 'E', 'C') => Some(Opcode::DEC),
            ('D', 'E', 'X') => Some(Opcode::DEX),
            ('D', 'E', 'Y') => Some(Opcode::DEY),
            ('E', 'O', 'R') => Some(Opcode::EOR),
            ('I', 'N', 'C') => Some(Opcode::INC),
            ('I', 'N', 'X') => Some(Opcode::INX),
            ('I', 'N', 'Y') => Some(Opcode::INY),
            ('J', 'M', 'P') => Some(Opcode::JMP),
            ('J', 'S', 'R') => Some(Opcode::JSR),
            ('L', 'D', 'A') => Some(Opcode::LDA),
            ('L', 'D', 'X') => Some(Opcode::LDX),
            ('L', 'D', 'Y') => Some(Opcode::LDY),
            ('L', 'S', 'R') => Some(Opcode::LSR),
            ('N', 'O', 'P') => Some(Opcode::NOP),
            ('O', 'R', 'A') => Some(Opcode::ORA),
            ('P', 'H', 'A') => Some(Opcode::PHA),
            ('P', 'L', 'A') => Some(Opcode::PLA),
            ('P', 'H', 'P') => Some(Opcode::PHP),
            ('P', 'L', 'P') => Some(Opcode::PLP),
            ('R', 'O', 'L') => Some(Opcode::ROL),
            ('R', 'O', 'R') => Some(Opcode::ROR),
            ('R', 'T', 'S') => Some(Opcode::RTS),
            ('S', 'B', 'C') => Some(Opcode::SBC),
            ('S', 'E', 'C') => Some(Opcode::SEC),
            ('S', 'E', 'D') => Some(Opcode::SED),
            ('S', 'E', 'I') => Some(Opcode::SEI),
            ('S', 'T', 'A') => Some(Opcode::STA),
            ('S', 'T', 'X') => Some(Opcode::STX),
            ('S', 'T', 'Y') => Some(Opcode::STY),
            ('T', 'A', 'X') => Some(Opcode::TAX),
            ('T', 'A', 'Y') => Some(Opcode::TAY),
            ('T', 'S', 'X') => Some(Opcode::TSX),
            ('T', 'X', 'A') => Some(Opcode::TXA),
            ('T', 'X', 'S') => Some(Opcode::TXS),
            ('T', 'Y', 'A') => Some(Opcode::TYA),
            ('D', 'R', 'W') => Some(Opcode::DRW),
            _ => None,
        }
    }
}

/// The ten opcodes whose operand may be a label reference.
pub open spec fn is_control_transfer(op: Opcode) -> bool {
    match op {
        Opcode::JMP | Opcode::JSR | Opcode::BPL | Opcode::BMI | Opcode::BVC | Opcode::BVS
        | Opcode::BCC | Opcode::BCS | Opcode::BNE | Opcode::BEQ => true,
        _ => false,
    }
}

/// A line ending in `:` declares a label; any other line starts with a mnemonic.
pub open spec fn opcode_of_line(line: Seq<char>) -> Result<Opcode, DecodeErrorKind> {
    if line.len() > 0 && line.last() == ':' {
        Ok(Opcode::LABEL)
    } else if line.len() < 3 {
        Err(DecodeErrorKind::UnknownMnemonic)
    } else {
        match opcode_from_mnemonic(line.subrange(0, 3)) {
            Some(op) => Ok(op),
            None => Err(DecodeErrorKind::UnknownMnemonic),
        }
    }
}

// ---------------------------------------------------------------------------
// Operands
// ---------------------------------------------------------------------------

/// The addressing mode of an operand `t` from which blanks were removed.
/// A five-character `$` operand is zero-page indexed when it ends in `,X` or
/// `,Y` and otherwise a four-digit absolute address.
pub open spec fn addressing_mode_of(t: Seq<char>, op: Opcode) -> Result<AddressingMode, DecodeErrorKind> {
    if t.len() == 0 {
        Ok(AddressingMode::Implied)
    } else if t[0] == '#' {
        if t.len() == 4 && t[1] == '$' {
            Ok(AddressingMode::Immediate)
        } else {
            Err(DecodeErrorKind::MalformedOperand)
        }
    } else if t[0] == '$' {
        if t.len() == 3 {
            Ok(AddressingMode::ZeroPage)
        } else if t.len() == 5 {
            if t[4] == 'X' || t[4] == 'Y' {
                if t[3] != ',' {
                    Err(DecodeErrorKind::MalformedOperand)
                } else if t[4] == 'X' {
                    Ok(AddressingMode::ZeroPageX)
                } else {
                    Ok(AddressingMode::ZeroPageY)
                }
            } else {
                Ok(AddressingMode::Absolute)
            }
        } else if t.len() == 7 && t[5] == ',' && t[6] == 'X' {
            Ok(AddressingMode::AbsoluteX)
        } else if t.len() == 7 && t[5] == ',' && t[6] == 'Y' {
            Ok(AddressingMode::AbsoluteY)
        } else {
            Err(DecodeErrorKind::MalformedOperand)
        }
    } else if t[0] == '(' {
        if t.len() == 7 && t[1] == '$' && t[4] == ',' && t[5] == 'X' && t[6] == ')' {
            Ok(AddressingMode::IndirectX)
        } else if t.len() == 7 && t[1] == '$' && t[4] == ')' && t[5] == ',' && t[6] == 'Y' {
            Ok(AddressingMode::IndirectY)
        } else {
            Err(DecodeErrorKind::MalformedOperand)
        }
    } else if op == Opcode::LABEL || is_control_transfer(op) {
        Ok(AddressingMode::Relative)
    } else {
        Err(DecodeErrorKind::MalformedOperand)
    }
}

/// The number an operand `t` (blanks removed) carries in addressing mode `mode`.
pub open spec fn operand_value_of(t: Seq<char>, mode: AddressingMode) -> Result<u16, DecodeErrorKind> {
    match mode {
        AddressingMode::Immediate => hex_byte_at(t, 2),
        AddressingMode::ZeroPage | AddressingMode::ZeroPageX | AddressingMode::ZeroPageY => hex_byte_at(t, 1),
        AddressingMode::Absolute | AddressingMode::AbsoluteX | AddressingMode::AbsoluteY => hex_word_at(t, 1),
        AddressingMode::IndirectX | AddressingMode::IndirectY => hex_byte_at(t, 2),
        AddressingMode::Relative | AddressingMode::Implied => Ok(NO_VALUE),
    }
}

/// What decoding one line gives.
pub open spec fn decode_line(line: Seq<char>) -> Result<InstructionView, DecodeErrorKind> {
    match opcode_of_line(line) {
        Err(e) => Err(e),
        Ok(op) => if op == Opcode::LABEL {
            Ok(InstructionView {
                opcode: Opcode::LABEL,
                addressing_mode: AddressingMode::Absolute,
                value: 0,
                label_name: line.drop_last(),
            })
        } else {
            let operand = line.subrange(3, line.len() as int);
            let t = remove_blanks(operand);
            match addressing_mode_of(t, op) {
                Err(e) => Err(e),
                Ok(mode) => match operand_value_of(t, mode) {
                    Err(e) => Err(e),
                    Ok(value) => Ok(InstructionView {
                        opcode: op,
                        addressing_mode: mode,
                        value,
                        label_name: trim(operand),
                    }),
                },
            }
        },
    }
}

/// Every one of `lines` decodes.
pub open spec fn all_decode(lines: Seq<String>) -> bool {
    forall|i: int| 0 <= i < lines.len() ==> (#[trigger] decode_line(lines[i]@)) is Ok
}

/// An instruction whose operand is `#$` and two hex digits decodes in
/// immediate mode, with the two digits' value as its value.
pub proof fn immediate_operand_decodes(mnemonic: Seq<char>, op: Opcode, hi: char, lo: char)
    requires
        opcode_from_mnemonic(mnemonic) == Some(op),
        hex_digit_value(hi) is Some,
        hex_digit_value(lo) is Some,
    ensures
        decode_line(mnemonic + seq![' ', '#', '$', hi, lo]) == Ok::<InstructionView, DecodeErrorKind>(InstructionView {
            opcode: op,
            addressing_mode: AddressingMode::Immediate,
            value: (hex_digit_value(hi)->0 * 16 + hex_digit_value(lo)->0) as u16,
            label_name: seq!['#', '$', hi, lo],
        }),
{
    let line = mnemonic + seq![' ', '#', '$', hi, lo];
    let operand = seq![' ', '#', '$', hi, lo];
    let t = seq!['#', '$', hi, lo];
    assert(line.subrange(0, 3) =~= mnemonic);
    assert(line.subrange(3, line.len() as int) =~= operand);
    assert(line.last() == lo);
    reveal_with_fuel(remove_blanks, 6);
    assert(operand.drop_last() =~= seq![' ', '#', '$', hi]);
    assert(operand.drop_last().drop_last() =~= seq![' ', '#', '$']);
    assert(operand.drop_last().drop_last().drop_last() =~= seq![' ', '#']);
    assert(operand.drop_last().drop_last().drop_last().drop_last() =~= seq![' ']);
    assert(seq![' '].drop_last() =~= Seq::<char>::empty());
    assert(remove_blanks(operand) =~= t);
    assert(operand.drop_first() =~= t);
    assert(trim_start(t) == t);
    assert(trim_start(operand) == t);
    assert(trim_end(t) == t);
}

// ---------------------------------------------------------------------------
// Executable decoding
// ---------------------------------------------------------------------------

pub(crate) fn chars_of(s: &str) -> (r: Vec<char>)
    ensures
        r@ == s@,
{
    let n = s.unicode_len();
    let mut r: Vec<char> = Vec::with_capacity(n);
    let mut i: usize = 0;
    while i < n
        invariant
            n == s@.len(),
            i <= n,
            r@ == s@.subrange(0, i as int),
        decreases n - i,
    {
        r.push(s.get_char(i));
        i = i + 1;
    }
    r
}

fn is_blank_char(c: char) -> (r: bool)
    ensures
        r == is_blank(c),
{
    c == ' ' || c == '\t' || c == '\r'
}

/// The characters of `s` from `from` on, with blanks removed.
fn remove_blanks_from(s: &Vec<char>, from: usize) -> (r: Vec<char>)
    requires
        from <= s.len(),
    ensures
        r@ == remove_blanks(s@.subrange(from as int, s.len() as int)),
{
    let mut r: Vec<char> = Vec::new();
    let mut i: usize = from;
    assert(s@.subrange(from as int, from as int).len() == 0);
    while i < s.len()
        invariant
            from <= i <= s.len(),
            r@ == remove_blanks(s@.subrange(from as int, i as int)),
        decreases s.len() - i,
    {
        let c = s[i];
        assert(s@.subrange(from as int, i + 1).drop_last() =~= s@.subrange(from as int, i as int));
        if !is_blank_char(c) {
            r.push(c);
        }
        i = i + 1;
    }
    r
}

/// Bounds `(a, b)` such that `s[a..b]` is `s[from..to]` trimmed.
fn trimmed_bounds(s: &Vec<char>, from: usize, to: usize) -> (r: (usize, usize))
    requires
        from <= to <= s.len(),
    ensures
        from <= r.0 <= r.1 <= to,
        s@.subrange(r.0 as int, r.1 as int) == trim(s@.subrange(from as int, to as int)),
{
    let n = to;
    let mut a: usize = from;
    while a < n && is_blank_char(s[a])
        invariant
            from <= a <= n,
            n <= s.len(),
            trim_start(s@.subrange(from as int, n as int)) == trim_start(s@.subrange(a as int, n as int)),
        decreases n - a,
    {
        assert(s@.subrange(a as int, n as int).drop_first() =~= s@.subrange(a + 1, n as int));
        a = a + 1;
    }
    let mut b: usize = n;
    while b > a && is_blank_char(s[b - 1])
        invariant
            from <= a <= b <= n,
            n <= s.len(),
            trim(s@.subrange(from as int, n as int)) == trim_end(s@.subrange(a as int, b as int)),
        decreases b,
    {
        assert(s@.subrange(a as int, b as int).drop_last() =~= s@.subrange(a as int, b - 1));
        b = b - 1;
    }
    (a, b)
}

fn hex_digit(c: char) -> (r: Option<u8>)
    ensures
        r == hex_digit_value(c),
{
    if '0' <= c && c <= '9' {
        Some((c as u32 - '0' as u32) as u8)
    } else if 'A' <= c && c <= 'F' {
        Some((c as u32 - 'A' as u32 + 10) as u8)
    } else if 'a' <= c && c <= 'f' {
        Some((c as u32 - 'a' as u32 + 10) as u8)
    } else {
        None
    }
}

fn parse_hex_byte(t: &Vec<char>, start: usize) -> (r: Result<u16, DecodeErrorKind>)
    ensures
        r == hex_byte_at(t@, start as int),
{
    if start > t.len() || t.len() - start < 2 {
        return Err(DecodeErrorKind::MalformedOperand);
    }
    match (hex_digit(t[start]), hex_digit(t[start + 1])) {
        (Some(h), Some(l)) => Ok(h as u16 * 16 + l as u16),
        _ => Err(DecodeErrorKind::InvalidHexDigit),
    }
}

fn parse_hex_word(t: &Vec<char>, start: usize) -> (r: Result<u16, DecodeErrorKind>)
    requires
        start < usize::MAX - 2,
    ensures
        r == hex_word_at(t@, start as int),
{
    match (parse_hex_byte(t, start), parse_hex_byte(t, start + 2)) {
        (Ok(h), Ok(l)) => Ok(h * 256 + l),
        (Err(e), _) => Err(e),
        (_, Err(e)) => Err(e),
    }
}

/// The opcode that a three-character mnemonic names.
pub fn opcode_from_chars(a: char, b: char, c: char) -> (r: Option<Opcode>)
    ensures
        r == opcode_from_mnemonic(seq![a, b, c]),
{
    match (a, b, c) {
        ('A', 'D', 'C') => Some(Opcode::ADC),
        ('A', 'N', 'D') => Some(Opcode::AND),
        ('A', 'S', 'L') => Some(Opcode::ASL),
        ('B', 'C', 'C') => Some(Opcode::BCC),
        ('B', 'C', 'S') => Some(Opcode::BCS),
        ('B', 'E', 'Q') => Some(Opcode::BEQ),
        ('B', 'I', 'T') => Some(Opcode::BIT),
        ('B', 'M', 'I') => Some(Opcode::BMI),
        ('B', 'N', 'E') => Some(Opcode::BNE),
        ('B', 'P', 'L') => Some(Opcode::BPL),
        ('B', 'R', 'K') => Some(Opcode::BRK),
        ('B', 'V', 'C') => Some(Opcode::BVC),
        ('B', 'V', 'S') => Some(Opcode::BVS),
        ('C', 'L', 'C') => Some(Opcode::CLC),
        ('C', 'L', 'D') => Some(Opcode::CLD),
        ('C', 'L', 'I') => Some(Opcode::CLI),
        ('C', 'L', 'V') => Some(Opcode::CLV),
        ('C', 'M', 'P') => Some(Opcode::CMP),
        ('C', 'P', 'X') => Some(Opcode::CPX),
        ('C', 'P', 'Y') => Some(Opcode::CPY),
        ('D', 'E', 'C') => Some(Opcode::DEC),
        ('D', 'E', 'X') => Some(Opcode::DEX),
        ('D', 'E', 'Y') => Some(Opcode::DEY),
        ('E', 'O', 'R') => Some(Opcode::EOR),
        ('I', 'N', 'C') => Some(Opcode::INC),
        ('I', 'N', 'X') => Some(Opcode::INX),
        ('I', 'N', 'Y') => Some(Opcode::INY),
        ('J', 'M', 'P') => Some(Opcode::JMP),
        ('J', 'S', 'R') => Some(Opcode::JSR),
        ('L', 'D', 'A') => Some(Opcode::LDA),
        ('L', 'D', 'X') => Some(Opcode::LDX),
        ('L', 'D', 'Y') => Some(Opcode::LDY),
        ('L', 'S', 'R') => Some(Opcode::LSR),
        ('N', 'O', 'P') => Some(Opcode::NOP),
        ('O', 'R', 'A') => Some(Opcode::ORA),
        ('P', 'H', 'A') => Some(Opcode::PHA),
        ('P', 'L', 'A') => Some(Opcode::PLA),
        ('P', 'H', 'P') => Some(Opcode::PHP),
        ('P', 'L', 'P') => Some(Opcode::PLP),
        ('R', 'O', 'L') => Some(Opcode::ROL),
        ('R', 'O', 'R') => Some(Opcode::ROR),
        ('R', 'T', 'S') => Some(Opcode::RTS),
        ('S', 'B', 'C') => Some(Opcode::SBC),
        ('S', 'E', 'C') => Some(Opcode::SEC),
        ('S', 'E', 'D') => Some(Opcode::SED),
        ('S', 'E', 'I') => Some(Opcode::SEI),
        ('S', 'T', 'A') => Some(Opcode::STA),
        ('S', 'T', 'X') => Some(Opcode::STX),
        ('S', 'T', 'Y') => Some(Opcode::STY),
        ('T', 'A', 'X') => Some(Opcode::TAX),
        ('T', 'A', 'Y') => Some(Opcode::TAY),
        ('T', 'S', 'X') => Some(Opcode::TSX),
        ('T', 'X', 'A') => Some(Opcode::TXA),
        ('T', 'X', 'S') => Some(Opcode::TXS),
        ('T', 'Y', 'A') => Some(Opcode::TYA),
        ('D', 'R', 'W') => Some(Opcode::DRW),
        _ => None,
    }
}

/// The opcode of a line: `LABEL` when it ends in `:`, otherwise the one that
/// its first three characters name.
fn get_opcode(line: &Vec<char>) -> (r: Result<Opcode, DecodeErrorKind>)
    ensures
        r == opcode_of_line(line@),
{
    let n = line.len();
    if n > 0 && line[n - 1] == ':' {
        Ok(Opcode::LABEL)
    } else if n < 3 {
        Err(DecodeErrorKind::UnknownMnemonic)
    } else {
        assert(line@.subrange(0, 3) =~= seq![line@[0], line@[1], line@[2]]);
        match opcode_from_chars(line[0], line[1], line[2]) {
            Some(op) => Ok(op),
            None => Err(DecodeErrorKind::UnknownMnemonic),
        }
    }
}

fn is_transfer_opcode(op: Opcode) -> (r: bool)
    ensures
        r == is_control_transfer(op),
{
    match op {
        Opcode::JMP | Opcode::JSR | Opcode::BPL | Opcode::BMI | Opcode::BVC | Opcode::BVS
        | Opcode::BCC | Opcode::BCS | Opcode::BNE | Opcode::BEQ => true,
        _ => false,
    }
}

/// Classifies an operand `t` from which blanks were removed.
pub fn get_addressing_mode(t: &Vec<char>, opcode: Opcode) -> (r: Result<AddressingMode, DecodeErrorKind>)
    ensures
        r == addressing_mode_of(t@, opcode),
{
    let n = t.len();
    if n == 0 {
        return Ok(AddressingMode::Implied);
    }
    let first = t[0];
    if first == '#' {
        if n == 4 && t[1] == '$' {
            Ok(AddressingMode::Immediate)
        } else {
            Err(DecodeErrorKind::MalformedOperand)
        }
    } else if first == '$' {
        if n == 3 {
            Ok(AddressingMode::ZeroPage)
        } else if n == 5 {
            let index = t[4];
            if index == 'X' || index == 'Y' {
                if t[3] != ',' {
                    Err(DecodeErrorKind::MalformedOperand)
                } else if index == 'X' {
                    Ok(AddressingMode::ZeroPageX)
                } else {
                    Ok(AddressingMode::ZeroPageY)
                }
            } else {
                Ok(AddressingMode::Absolute)
            }
        } else if n == 7 && t[5] == ',' && t[6] == 'X' {
            Ok(AddressingMode::AbsoluteX)
        } else if n == 7 && t[5] == ',' && t[6] == 'Y' {
            Ok(AddressingMode::AbsoluteY)
        } else {
            Err(DecodeErrorKind::MalformedOperand)
        }
    } else if first == '(' {
        if n == 7 && t[1] == '$' && t[4] == ',' && t[5] == 'X' && t[6] == ')' {
            Ok(AddressingMode::IndirectX)
        } else if n == 7 && t[1] == '$' && t[4] == ')' && t[5] == ',' && t[6] == 'Y' {
            Ok(AddressingMode::IndirectY)
        } else {
            Err(DecodeErrorKind::MalformedOperand)
        }
    } else if opcode == Opcode::LABEL || is_transfer_opcode(opcode) {
        Ok(AddressingMode::Relative)
    } else {
        Err(DecodeErrorKind::MalformedOperand)
    }
}

/// Reads the number out of an operand `t` (blanks removed) whose addressing
/// mode is `addressing_mode`.
pub fn get_operand_value(t: &Vec<char>, addressing_mode: AddressingMode) -> (r: Result<u16, DecodeErrorKind>)
    ensures
        r == operand_value_of(t@, addressing_mode),
{
    match addressing_mode {
        AddressingMode::Immediate => parse_hex_byte(t, 2),
        AddressingMode::ZeroPage | AddressingMode::ZeroPageX | AddressingMode::ZeroPageY => parse_hex_byte(t, 1),
        AddressingMode::Absolute | AddressingMode::AbsoluteX | AddressingMode::AbsoluteY => parse_hex_word(t, 1),
        AddressingMode::IndirectX | AddressingMode::IndirectY => parse_hex_byte(t, 2),
        AddressingMode::Relative | AddressingMode::Implied => Ok(NO_VALUE),
    }
}

/// Decodes one program line.
pub fn decode_instruction(line: &String) -> (r: Result<Instruction, DecodeErrorKind>)
    ensures
        match r {
            Ok(ins) => decode_line(line@) == Ok::<InstructionView, DecodeErrorKind>(ins@),
            Err(e) => decode_line(line@) == Err::<InstructionView, DecodeErrorKind>(e),
        },
{
    let text = line.as_str();
    let chars = chars_of(text);
    let n = chars.len();
    let opcode = match get_opcode(&chars) {
        Ok(op) => op,
        Err(e) => return Err(e),
    };
    if opcode == Opcode::LABEL {
        let name = text.substring_char(0, n - 1).to_owned();
        assert(name@ =~= line@.drop_last());
        return Ok(Instruction {
            opcode,
            addressing_mode: AddressingMode::Absolute,
            value: 0,
            label_name: name,
        });
    }
    let t = remove_blanks_from(&chars, 3);
    let addressing_mode = match get_addressing_mode(&t, opcode) {
        Ok(m) => m,
        Err(e) => return Err(e),
    };
    let value = match get_operand_value(&t, addressing_mode) {
        Ok(v) => v,
        Err(e) => return Err(e),
    };
    let (a, b) = trimmed_bounds(&chars, 3, n);
    let label_name = text.substring_char(a, b).to_owned();
    Ok(Instruction { opcode, addressing_mode, value, label_name })
}

/// Decodes every line of a program, in order. Fails with the first line
/// that does not decode.
pub fn get_instructions(instructions: Vec<String>) -> (r: Result<Vec<Instruction>, DecodeError>)
    ensures
        match r {
            Ok(v) => {
                &&& all_decode(instructions@)
                &&& v.len() == instructions.len()
                &&& forall|i: int| 0 <= i < v.len() ==>
                    decode_line(instructions@[i]@) == Ok::<InstructionView, DecodeErrorKind>(#[trigger] v@[i]@)
            },
            Err(e) => {
                &&& e.line < instructions.len()
                &&& decode_line(instructions@[e.line as int]@) == Err::<InstructionView, DecodeErrorKind>(e.kind)
                &&& forall|i: int| 0 <= i < e.line ==> (#[trigger] decode_line(instructions@[i]@)) is Ok
            },
        },
{
    let mut to_return: Vec<Instruction> = Vec::new();
    let mut i: usize = 0;
    while i < instructions.len()
        invariant
            i <= instructions.len(),
            to_return.len() == i,
            forall|j: int| 0 <= j < i ==>
                decode_line(instructions@[j]@) == Ok::<InstructionView, DecodeErrorKind>(#[trigger] to_return@[j]@),
            forall|j: int| 0 <= j < i ==> (#[trigger] decode_line(instructions@[j]@)) is Ok,
        decreases instructions.len() - i,
    {
        match decode_instruction(&instructions[i]) {
            Ok(ins) => to_return.push(ins),
            Err(kind) => {
                return Err(DecodeError { line: i, kind });
            },
        }
        i = i + 1;
    }
    Ok(to_return)
}

} // verus!
