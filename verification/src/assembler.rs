//! The two-pass assembler: source text in, object file out.
use vstd::prelude::*;
use vstd::slice::{slice_subrange, slice_to_vec};

use crate::indexed_vec::{IndexedVecErr, MAX_LEN};
use crate::isa::{
    lemma_instruction_length, spec_arg_type, spec_op_code, spec_op_from_name, spec_operand_size,
    spec_operands, spec_operands_size, spec_register_index, spec_to_offset, Arguments, OperandKind,
    Operation, Register,
};
use crate::object::{apart, be_bytes, be_word, ObjectFile, ObjectModel};
use crate::symbols::chars_eq;
use crate::text::{
    chars_of, is_sep, is_ws, lemma_split_last, lemma_trim_last, lines, range_texts, ranges_within,
    split, split_ranges, string_from_chars, trim, trim_range, Sep,
};

verus! {

#[verifier::external_type_specification]
#[verifier::external_body]
pub struct ExParseIntError(std::num::ParseIntError);

/// Assembles source text into an object file.
pub struct Assembler {
    objfile: ObjectFile,
}

/// Why a source text could not be assembled. Line numbers count from 1.
#[derive(Debug)]
pub enum AssembleError {
    MissingOpcode { line: usize },
    UnknownOpcode { line: usize, opcode: String },
    MissingArgument { line: usize, index: usize },
    BytecodeTooLarge,
    ParseError(ParseError),
    ResolveError(ResolveError),
}

/// An operand that is not a register where a register is expected.
#[derive(Debug, Clone, Copy, PartialEq, Eq, Structural)]
pub enum ParseError {
    InvalidRegister,
}

/// Why an immediate operand could not be resolved.
#[derive(Debug, PartialEq, Eq)]
pub enum ResolveError {
    InternalRelocationOverflow,
    ExternalRelocationOverflow,
    LiteralError(std::num::ParseIntError),
}

impl From<IndexedVecErr> for AssembleError {
    fn from(_e: IndexedVecErr) -> (r: Self) {
        AssembleError::BytecodeTooLarge
    }
}

impl vstd::std_specs::convert::FromSpecImpl<IndexedVecErr> for AssembleError {
    open spec fn obeys_from_spec() -> bool {
        true
    }

    open spec fn from_spec(e: IndexedVecErr) -> Self {
        AssembleError::BytecodeTooLarge
    }
}

impl From<std::num::ParseIntError> for ResolveError {
    fn from(value: std::num::ParseIntError) -> (r: Self) {
        ResolveError::LiteralError(value)
    }
}

impl vstd::std_specs::convert::FromSpecImpl<std::num::ParseIntError> for ResolveError {
    open spec fn obeys_from_spec() -> bool {
        true
    }

    open spec fn from_spec(value: std::num::ParseIntError) -> Self {
        ResolveError::LiteralError(value)
    }
}

impl From<ResolveError> for AssembleError {
    fn from(value: ResolveError) -> (r: Self) {
        AssembleError::ResolveError(value)
    }
}

impl vstd::std_specs::convert::FromSpecImpl<ResolveError> for AssembleError {
    open spec fn obeys_from_spec() -> bool {
        true
    }

    open spec fn from_spec(value: ResolveError) -> Self {
        AssembleError::ResolveError(value)
    }
}

/// An assembly error with its strings as character sequences.
pub enum AssembleErrorView {
    MissingOpcode { line: usize },
    UnknownOpcode { line: usize, opcode: Seq<char> },
    MissingArgument { line: usize, index: usize },
    BytecodeTooLarge,
    ParseError(ParseError),
    ResolveError(ResolveError),
}

impl View for AssembleError {
    type V = AssembleErrorView;

    open spec fn view(&self) -> AssembleErrorView {
        match self {
            AssembleError::MissingOpcode { line } => AssembleErrorView::MissingOpcode { line: *line },
            AssembleError::UnknownOpcode { line, opcode } => AssembleErrorView::UnknownOpcode {
                line: *line,
                opcode: opcode@,
            },
            AssembleError::MissingArgument { line, index } => AssembleErrorView::MissingArgument {
                line: *line,
                index: *index,
            },
            AssembleError::BytecodeTooLarge => AssembleErrorView::BytecodeTooLarge,
            AssembleError::ParseError(e) => AssembleErrorView::ParseError(*e),
            AssembleError::ResolveError(e) => AssembleErrorView::ResolveError(*e),
        }
    }
}

/// The outcome of an assembly step, errors viewed with their strings as character sequences.
pub open spec fn outcome(r: Result<(), AssembleError>) -> Result<(), AssembleErrorView> {
    match r {
        Ok(()) => Ok(()),
        Err(e) => Err(e@),
    }
}

/// The value of a digit in base `radix`: `0-9`, then `a-z` or `A-Z` from 10.
pub open spec fn digit_value(c: char, radix: nat) -> Option<nat> {
    let v: int = if '0' <= c && c <= '9' {
        c as int - '0' as int
    } else if 'a' <= c && c <= 'z' {
        c as int - 'a' as int + 10
    } else if 'A' <= c && c <= 'Z' {
        c as int - 'A' as int + 10
    } else {
        radix as int
    };
    if 0 <= v < radix {
        Some(v as nat)
    } else {
        None
    }
}

/// The value of a string of digits in base `radix`, or `None` if a character is no digit.
pub open spec fn digits_value(ds: Seq<char>, radix: nat) -> Option<nat>
    decreases ds.len(),
{
    if ds.len() == 0 {
        Some(0)
    } else {
        match (digits_value(ds.drop_last(), radix), digit_value(ds.last(), radix)) {
            (Some(a), Some(d)) => Some(a * radix + d),
            _ => None,
        }
    }
}

/// The value of a numeral in base `radix`: an optional `+` and at least one digit.
pub open spec fn numeral_value(s: Seq<char>, radix: nat) -> Option<nat> {
    let ds = if s.len() > 0 && s[0] == '+' {
        s.drop_first()
    } else {
        s
    };
    if ds.len() == 0 {
        None
    } else {
        digits_value(ds, radix)
    }
}

/// What `u16::from_str_radix(digits, 16)` returns.
pub uninterp spec fn hex_u16_result(digits: Seq<char>) -> Result<u16, std::num::ParseIntError>;

/// What `digits.parse::<u16>()` returns.
pub uninterp spec fn dec_u16_result(digits: Seq<char>) -> Result<u16, std::num::ParseIntError>;

/// A literal in base `radix`: the numeral's value when it is one and fits 16 bits; otherwise an
/// error, the one that the parse returns in `err`.
pub open spec fn literal(digits: Seq<char>, radix: nat, err: Result<u16, std::num::ParseIntError>) -> Result<
    u16,
    std::num::ParseIntError,
> {
    match numeral_value(digits, radix) {
        Some(v) => if v <= 0xFFFF {
            Ok(v as u16)
        } else {
            Err(err->Err_0)
        },
        None => Err(err->Err_0),
    }
}

/// What a hexadecimal literal (the digits after `0x`) resolves to.
pub open spec fn hex_literal(digits: Seq<char>) -> Result<u16, std::num::ParseIntError> {
    literal(digits, 16, hex_u16_result(digits))
}

/// What a decimal literal resolves to.
pub open spec fn dec_literal(digits: Seq<char>) -> Result<u16, std::num::ParseIntError> {
    literal(digits, 10, dec_u16_result(digits))
}

/// `u16::from_str_radix` in base 16: succeeds exactly on an optional `+` followed by hex digits
/// whose value fits 16 bits, with that value; the error it returns otherwise is named, not
/// described.
#[verifier::external_body]
fn parse_hex_u16(digits: &[char]) -> (r: Result<u16, std::num::ParseIntError>)
    ensures
        r == hex_u16_result(digits@),
        r is Ok <==> (numeral_value(digits@, 16) matches Some(v) && v <= 0xFFFF),
        r matches Ok(v) ==> numeral_value(digits@, 16) == Some(v as nat),
{
    let s: String = digits.iter().collect();
    u16::from_str_radix(&s, 16)
}

/// `str::parse::<u16>`: succeeds exactly on an optional `+` followed by decimal digits whose
/// value fits 16 bits, with that value; the error it returns otherwise is named, not described.
#[verifier::external_body]
fn parse_dec_u16(digits: &[char]) -> (r: Result<u16, std::num::ParseIntError>)
    ensures
        r == dec_u16_result(digits@),
        r is Ok <==> (numeral_value(digits@, 10) matches Some(v) && v <= 0xFFFF),
        r matches Ok(v) ==> numeral_value(digits@, 10) == Some(v as nat),
{
    let s: String = digits.iter().collect();
    s.parse::<u16>()
}

/// The name of a register, in upper case.
pub open spec fn register_name(r: Register) -> Seq<char> {
    match r {
        Register::R0 => seq!['R', '0'],
        Register::R1 => seq!['R', '1'],
        Register::R2 => seq!['R', '2'],
        Register::R3 => seq!['R', '3'],
        Register::R4 => seq!['R', '4'],
        Register::R5 => seq!['R', '5'],
        Register::R6 => seq!['R', '6'],
        Register::R7 => seq!['R', '7'],
        Register::R8 => seq!['R', '8'],
        Register::R9 => seq!['R', '9'],
        Register::R10 => seq!['R', '1', '0'],
        Register::R11 => seq!['R', '1', '1'],
        Register::R12 => seq!['R', '1', '2'],
        Register::R13 => seq!['R', '1', '3'],
        Register::R14 => seq!['R', '1', '4'],
        Register::R15 => seq!['R', '1', '5'],
        Register::RSP => seq!['R', 'S', 'P'],
    }
}

/// The upper-case form of `c` where it matters for register names: ASCII letters map to their
/// capitals and `'ſ'` (long s) to `'S'`; no other character maps to a character that occurs in
/// a register name.
pub open spec fn upper(c: char) -> char {
    match c {
        'a' => 'A',
        'b' => 'B',
        'c' => 'C',
        'd' => 'D',
        'e' => 'E',
        'f' => 'F',
        'g' => 'G',
        'h' => 'H',
        'i' => 'I',
        'j' => 'J',
        'k' => 'K',
        'l' => 'L',
        'm' => 'M',
        'n' => 'N',
        'o' => 'O',
        'p' => 'P',
        'q' => 'Q',
        'r' => 'R',
        's' => 'S',
        't' => 'T',
        'u' => 'U',
        'v' => 'V',
        'w' => 'W',
        'x' => 'X',
        'y' => 'Y',
        'z' => 'Z',
        '\u{17f}' => 'S',
        _ => c,
    }
}

fn upper_char(c: char) -> (r: char)
    ensures
        r == upper(c),
{
    match c {
        'a' => 'A',
        'b' => 'B',
        'c' => 'C',
        'd' => 'D',
        'e' => 'E',
        'f' => 'F',
        'g' => 'G',
        'h' => 'H',
        'i' => 'I',
        'j' => 'J',
        'k' => 'K',
        'l' => 'L',
        'm' => 'M',
        'n' => 'N',
        'o' => 'O',
        'p' => 'P',
        'q' => 'Q',
        'r' => 'R',
        's' => 'S',
        't' => 'T',
        'u' => 'U',
        'v' => 'V',
        'w' => 'W',
        'x' => 'X',
        'y' => 'Y',
        'z' => 'Z',
        '\u{17f}' => 'S',
        _ => c,
    }
}

/// The register whose name is `s` ignoring case, if any.
pub open spec fn spec_parse_reg(s: Seq<char>) -> Option<Register> {
    let u = s.map_values(|c: char| upper(c));
    if u == seq!['R', '0'] {
        Some(Register::R0)
    }     else if u == seq!['R', '1'] {
        Some(Register::R1)
    }     else if u == seq!['R', '2'] {
        Some(Register::R2)
    }     else if u == seq!['R', '3'] {
        Some(Register::R3)
    }     else if u == seq!['R', '4'] {
        Some(Register::R4)
    }     else if u == seq!['R', '5'] {
        Some(Register::R5)
    }     else if u == seq!['R', '6'] {
        Some(Register::R6)
    }     else if u == seq!['R', '7'] {
        Some(Register::R7)
    }     else if u == seq!['R', '8'] {
        Some(Register::R8)
    }     else if u == seq!['R', '9'] {
        Some(Register::R9)
    }     else if u == seq!['R', '1', '0'] {
        Some(Register::R10)
    }     else if u == seq!['R', '1', '1'] {
        Some(Register::R11)
    }     else if u == seq!['R', '1', '2'] {
        Some(Register::R12)
    }     else if u == seq!['R', '1', '3'] {
        Some(Register::R13)
    }     else if u == seq!['R', '1', '4'] {
        Some(Register::R14)
    }     else if u == seq!['R', '1', '5'] {
        Some(Register::R15)
    }     else if u == seq!['R', 'S', 'P'] {
        Some(Register::RSP)
    } else {
        None
    }
}

/// The lower-case form of an ASCII capital; any other character is left as it is.
pub open spec fn ascii_lower(c: char) -> char {
    if 'A' <= c && c <= 'Z' {
        (c as int + 32) as char
    } else {
        c
    }
}

/// Register names ignore case: a register's name with any of its letters written in lower case
/// still names that register.
pub proof fn lemma_register_names_ignore_case(r: Register, s: Seq<char>)
    requires
        s.len() == register_name(r).len(),
        forall|i: int|
            0 <= i < s.len() ==> s[i] == register_name(r)[i] || s[i] == ascii_lower(
                #[trigger] register_name(r)[i],
            ),
    ensures
        spec_parse_reg(s) == Some(r),
{
    let n = register_name(r);
    assert forall|i: int| 0 <= i < s.len() implies upper(s[i]) == upper(n[i]) by {
        if s[i] != n[i] {
            assert(s[i] == ascii_lower(n[i]));
        }
    }
    assert(s.map_values(|c: char| upper(c)) =~= n.map_values(|c: char| upper(c)));
    lemma_register_name_roundtrip(r);
}

/// Parses a register operand, ignoring case (`r1`, `R1` and `Rsp` are accepted).
fn parse_reg(text: &Vec<char>, a: usize, b: usize) -> (r: Option<Register>)
    requires
        a <= b <= text@.len(),
    ensures
        r == spec_parse_reg(text@.subrange(a as int, b as int)),
{
    let mut up: Vec<char> = Vec::new();
    let mut i: usize = a;
    while i < b
        invariant
            a <= i <= b <= text@.len(),
            up@ == text@.subrange(a as int, i as int).map_values(|c: char| upper(c)),
        decreases b - i,
    {
        up.push(upper_char(text[i]));
        i += 1;
        assert(up@ =~= text@.subrange(a as int, i as int).map_values(|c: char| upper(c)));
    }
    let n = up.len();
    assert(up@.subrange(0, n as int) =~= up@);
    if chars_eq(up.as_slice(), 0, n, &['R', '0']) {
        return Some(Register::R0);
    }
    if chars_eq(up.as_slice(), 0, n, &['R', '1']) {
        return Some(Register::R1);
    }
    if chars_eq(up.as_slice(), 0, n, &['R', '2']) {
        return Some(Register::R2);
    }
    if chars_eq(up.as_slice(), 0, n, &['R', '3']) {
        return Some(Register::R3);
    }
    if chars_eq(up.as_slice(), 0, n, &['R', '4']) {
        return Some(Register::R4);
    }
    if chars_eq(up.as_slice(), 0, n, &['R', '5']) {
        return Some(Register::R5);
    }
    if chars_eq(up.as_slice(), 0, n, &['R', '6']) {
        return Some(Register::R6);
    }
    if chars_eq(up.as_slice(), 0, n, &['R', '7']) {
        return Some(Register::R7);
    }
    if chars_eq(up.as_slice(), 0, n, &['R', '8']) {
        return Some(Register::R8);
    }
    if chars_eq(up.as_slice(), 0, n, &['R', '9']) {
        return Some(Register::R9);
    }
    if chars_eq(up.as_slice(), 0, n, &['R', '1', '0']) {
        return Some(Register::R10);
    }
    if chars_eq(up.as_slice(), 0, n, &['R', '1', '1']) {
        return Some(Register::R11);
    }
    if chars_eq(up.as_slice(), 0, n, &['R', '1', '2']) {
        return Some(Register::R12);
    }
    if chars_eq(up.as_slice(), 0, n, &['R', '1', '3']) {
        return Some(Register::R13);
    }
    if chars_eq(up.as_slice(), 0, n, &['R', '1', '4']) {
        return Some(Register::R14);
    }
    if chars_eq(up.as_slice(), 0, n, &['R', '1', '5']) {
        return Some(Register::R15);
    }
    if chars_eq(up.as_slice(), 0, n, &['R', 'S', 'P']) {
        return Some(Register::RSP);
    }
    None
}

/// Parsing a register's name gives back the register.
pub proof fn lemma_register_name_roundtrip(r: Register)
    ensures
        spec_parse_reg(register_name(r)) == Some(r),
{
    let u = register_name(r).map_values(|c: char| upper(c));
    assert(u =~= register_name(r));
    match r {
        Register::R0 => {
        },
        Register::R1 => {
            assert(register_name(Register::R1)[1] != register_name(Register::R0)[1]);
        },
        Register::R2 => {
            assert(register_name(Register::R2)[1] != register_name(Register::R0)[1]);
            assert(register_name(Register::R2)[1] != register_name(Register::R1)[1]);
        },
        Register::R3 => {
            assert(register_name(Register::R3)[1] != register_name(Register::R0)[1]);
            assert(register_name(Register::R3)[1] != register_name(Register::R1)[1]);
            assert(register_name(Register::R3)[1] != register_name(Register::R2)[1]);
        },
        Register::R4 => {
            assert(register_name(Register::R4)[1] != register_name(Register::R0)[1]);
            assert(register_name(Register::R4)[1] != register_name(Register::R1)[1]);
            assert(register_name(Register::R4)[1] != register_name(Register::R2)[1]);
            assert(register_name(Register::R4)[1] != register_name(Register::R3)[1]);
        },
        Register::R5 => {
            assert(register_name(Register::R5)[1] != register_name(Register::R0)[1]);
            assert(register_name(Register::R5)[1] != register_name(Register::R1)[1]);
            assert(register_name(Register::R5)[1] != register_name(Register::R2)[1]);
            assert(register_name(Register::R5)[1] != register_name(Register::R3)[1]);
            assert(register_name(Register::R5)[1] != register_name(Register::R4)[1]);
        },
        Register::R6 => {
            assert(register_name(Register::R6)[1] != register_name(Register::R0)[1]);
            assert(register_name(Register::R6)[1] != register_name(Register::R1)[1]);
            assert(register_name(Register::R6)[1] != register_name(Register::R2)[1]);
            assert(register_name(Register::R6)[1] != register_name(Register::R3)[1]);
            assert(register_name(Register::R6)[1] != register_name(Register::R4)[1]);
            assert(register_name(Register::R6)[1] != register_name(Register::R5)[1]);
        },
        Register::R7 => {
            assert(register_name(Register::R7)[1] != register_name(Register::R0)[1]);
            assert(register_name(Register::R7)[1] != register_name(Register::R1)[1]);
            assert(register_name(Register::R7)[1] != register_name(Register::R2)[1]);
            assert(register_name(Register::R7)[1] != register_name(Register::R3)[1]);
            assert(register_name(Register::R7)[1] != register_name(Register::R4)[1]);
            assert(register_name(Register::R7)[1] != register_name(Register::R5)[1]);
            assert(register_name(Register::R7)[1] != register_name(Register::R6)[1]);
        },
        Register::R8 => {
            assert(register_name(Register::R8)[1] != register_name(Register::R0)[1]);
            assert(register_name(Register::R8)[1] != register_name(Register::R1)[1]);
            assert(register_name(Register::R8)[1] != register_name(Register::R2)[1]);
            assert(register_name(Register::R8)[1] != register_name(Register::R3)[1]);
            assert(register_name(Register::R8)[1] != register_name(Register::R4)[1]);
            assert(register_name(Register::R8)[1] != register_name(Register::R5)[1]);
            assert(register_name(Register::R8)[1] != register_name(Register::R6)[1]);
            assert(register_name(Register::R8)[1] != register_name(Register::R7)[1]);
        },
        Register::R9 => {
            assert(register_name(Register::R9)[1] != register_name(Register::R0)[1]);
            assert(register_name(Register::R9)[1] != register_name(Register::R1)[1]);
            assert(register_name(Register::R9)[1] != register_name(Register::R2)[1]);
            assert(register_name(Register::R9)[1] != register_name(Register::R3)[1]);
            assert(register_name(Register::R9)[1] != register_name(Register::R4)[1]);
            assert(register_name(Register::R9)[1] != register_name(Register::R5)[1]);
            assert(register_name(Register::R9)[1] != register_name(Register::R6)[1]);
            assert(register_name(Register::R9)[1] != register_name(Register::R7)[1]);
            assert(register_name(Register::R9)[1] != register_name(Register::R8)[1]);
        },
        Register::R10 => {
            assert(register_name(Register::R10).len() != register_name(Register::R0).len());
            assert(register_name(Register::R10).len() != register_name(Register::R1).len());
            assert(register_name(Register::R10).len() != register_name(Register::R2).len());
            assert(register_name(Register::R10).len() != register_name(Register::R3).len());
            assert(register_name(Register::R10).len() != register_name(Register::R4).len());
            assert(register_name(Register::R10).len() != register_name(Register::R5).len());
            assert(register_name(Register::R10).len() != register_name(Register::R6).len());
            assert(register_name(Register::R10).len() != register_name(Register::R7).len());
            assert(register_name(Register::R10).len() != register_name(Register::R8).len());
            assert(register_name(Register::R10).len() != register_name(Register::R9).len());
        },
        Register::R11 => {
            assert(register_name(Register::R11).len() != register_name(Register::R0).len());
            assert(register_name(Register::R11).len() != register_name(Register::R1).len());
            assert(register_name(Register::R11).len() != register_name(Register::R2).len());
            assert(register_name(Register::R11).len() != register_name(Register::R3).len());
            assert(register_name(Register::R11).len() != register_name(Register::R4).len());
            assert(register_name(Register::R11).len() != register_name(Register::R5).len());
            assert(register_name(Register::R11).len() != register_name(Register::R6).len());
            assert(register_name(Register::R11).len() != register_name(Register::R7).len());
            assert(register_name(Register::R11).len() != register_name(Register::R8).len());
            assert(register_name(Register::R11).len() != register_name(Register::R9).len());
            assert(register_name(Register::R11)[2] != register_name(Register::R10)[2]);
        },
        Register::R12 => {
            assert(register_name(Register::R12).len() != register_name(Register::R0).len());
            assert(register_name(Register::R12).len() != register_name(Register::R1).len());
            assert(register_name(Register::R12).len() != register_name(Register::R2).len());
            assert(register_name(Register::R12).len() != register_name(Register::R3).len());
            assert(register_name(Register::R12).len() != register_name(Register::R4).len());
            assert(register_name(Register::R12).len() != register_name(Register::R5).len());
            assert(register_name(Register::R12).len() != register_name(Register::R6).len());
            assert(register_name(Register::R12).len() != register_name(Register::R7).len());
            assert(register_name(Register::R12).len() != register_name(Register::R8).len());
            assert(register_name(Register::R12).len() != register_name(Register::R9).len());
            assert(register_name(Register::R12)[2] != register_name(Register::R10)[2]);
            assert(register_name(Register::R12)[2] != register_name(Register::R11)[2]);
        },
        Register::R13 => {
            assert(register_name(Register::R13).len() != register_name(Register::R0).len());
            assert(register_name(Register::R13).len() != register_name(Register::R1).len());
            assert(register_name(Register::R13).len() != register_name(Register::R2).len());
            assert(register_name(Register::R13).len() != register_name(Register::R3).len());
            assert(register_name(Register::R13).len() != register_name(Register::R4).len());
            assert(register_name(Register::R13).len() != register_name(Register::R5).len());
            assert(register_name(Register::R13).len() != register_name(Register::R6).len());
            assert(register_name(Register::R13).len() != register_name(Register::R7).len());
            assert(register_name(Register::R13).len() != register_name(Register::R8).len());
            assert(register_name(Register::R13).len() != register_name(Register::R9).len());
            assert(register_name(Register::R13)[2] != register_name(Register::R10)[2]);
            assert(register_name(Register::R13)[2] != register_name(Register::R11)[2]);
            assert(register_name(Register::R13)[2] != register_name(Register::R12)[2]);
        },
        Register::R14 => {
            assert(register_name(Register::R14).len() != register_name(Register::R0).len());
            assert(register_name(Register::R14).len() != register_name(Register::R1).len());
            assert(register_name(Register::R14).len() != register_name(Register::R2).len());
            assert(register_name(Register::R14).len() != register_name(Register::R3).len());
            assert(register_name(Register::R14).len() != register_name(Register::R4).len());
            assert(register_name(Register::R14).len() != register_name(Register::R5).len());
            assert(register_name(Register::R14).len() != register_name(Register::R6).len());
            assert(register_name(Register::R14).len() != register_name(Register::R7).len());
            assert(register_name(Register::R14).len() != register_name(Register::R8).len());
            assert(register_name(Register::R14).len() != register_name(Register::R9).len());
            assert(register_name(Register::R14)[2] != register_name(Register::R10)[2]);
            assert(register_name(Register::R14)[2] != register_name(Register::R11)[2]);
            assert(register_name(Register::R14)[2] != register_name(Register::R12)[2]);
            assert(register_name(Register::R14)[2] != register_name(Register::R13)[2]);
        },
        Register::R15 => {
            assert(register_name(Register::R15).len() != register_name(Register::R0).len());
            assert(register_name(Register::R15).len() != register_name(Register::R1).len());
            assert(register_name(Register::R15).len() != register_name(Register::R2).len());
            assert(register_name(Register::R15).len() != register_name(Register::R3).len());
            assert(register_name(Register::R15).len() != register_name(Register::R4).len());
            assert(register_name(Register::R15).len() != register_name(Register::R5).len());
            assert(register_name(Register::R15).len() != register_name(Register::R6).len());
            assert(register_name(Register::R15).len() != register_name(Register::R7).len());
            assert(register_name(Register::R15).len() != register_name(Register::R8).len());
            assert(register_name(Register::R15).len() != register_name(Register::R9).len());
            assert(register_name(Register::R15)[2] != register_name(Register::R10)[2]);
            assert(register_name(Register::R15)[2] != register_name(Register::R11)[2]);
            assert(register_name(Register::R15)[2] != register_name(Register::R12)[2]);
            assert(register_name(Register::R15)[2] != register_name(Register::R13)[2]);
            assert(register_name(Register::R15)[2] != register_name(Register::R14)[2]);
        },
        Register::RSP => {
            assert(register_name(Register::RSP).len() != register_name(Register::R0).len());
            assert(register_name(Register::RSP).len() != register_name(Register::R1).len());
            assert(register_name(Register::RSP).len() != register_name(Register::R2).len());
            assert(register_name(Register::RSP).len() != register_name(Register::R3).len());
            assert(register_name(Register::RSP).len() != register_name(Register::R4).len());
            assert(register_name(Register::RSP).len() != register_name(Register::R5).len());
            assert(register_name(Register::RSP).len() != register_name(Register::R6).len());
            assert(register_name(Register::RSP).len() != register_name(Register::R7).len());
            assert(register_name(Register::RSP).len() != register_name(Register::R8).len());
            assert(register_name(Register::RSP).len() != register_name(Register::R9).len());
            assert(register_name(Register::RSP)[1] != register_name(Register::R10)[1]);
            assert(register_name(Register::RSP)[1] != register_name(Register::R11)[1]);
            assert(register_name(Register::RSP)[1] != register_name(Register::R12)[1]);
            assert(register_name(Register::RSP)[1] != register_name(Register::R13)[1]);
            assert(register_name(Register::RSP)[1] != register_name(Register::R14)[1]);
            assert(register_name(Register::RSP)[1] != register_name(Register::R15)[1]);
        },
    }
}

/// The keyword that marks a label as exported.
pub open spec fn export_keyword() -> Seq<char> {
    seq!['E', 'X', 'P', 'O', 'R', 'T']
}

/// Whether a token defines a label (ends with `:`).
pub open spec fn is_label_token(t: Seq<char>) -> bool {
    t.len() > 0 && t.last() == ':'
}

/// Whether a trimmed line holds no statement (empty or a `;` comment).
pub open spec fn is_blank(t: Seq<char>) -> bool {
    t.len() == 0 || t[0] == ';'
}

/// First pass over one line, with `pc` the address of the next instruction. A line whose last
/// whitespace-separated token ends in `:` defines that label (without the `:`) at `pc`, as an
/// export when its first token is `EXPORT`; a line whose first token is a mnemonic advances
/// `pc` by the instruction's length (modulo 2^16).
pub open spec fn scan_line(m: ObjectModel, pc: u16, line: Seq<char>) -> (ObjectModel, u16) {
    let t = trim(line);
    if is_blank(t) {
        (m, pc)
    } else {
        let parts = split(t, Sep::White, false);
        if parts.len() == 0 {
            (m, pc)
        } else if is_label_token(parts.last()) {
            let label = parts.last().drop_last();
            if parts[0] == export_keyword() {
                (ObjectModel { exports: m.exports.push((label, pc)), ..m }, pc)
            } else {
                (ObjectModel { labels: m.labels.insert(label, pc), ..m }, pc)
            }
        } else {
            match spec_op_from_name(parts[0]) {
                Some(op) => (m, ((pc + spec_to_offset(spec_arg_type(op))) % 0x10000) as u16),
                None => (m, pc),
            }
        }
    }
}

/// The first pass over `ls`, from address 0.
pub open spec fn scan_lines(m: ObjectModel, ls: Seq<Seq<char>>) -> (ObjectModel, u16)
    decreases ls.len(),
{
    if ls.len() == 0 {
        (m, 0)
    } else {
        let (m1, pc) = scan_lines(m, ls.drop_last());
        scan_line(m1, pc, ls.last())
    }
}

/// Whether a line defines an exported label.
pub open spec fn is_export_line(line: Seq<char>) -> bool {
    let t = trim(line);
    let parts = split(t, Sep::White, false);
    !is_blank(t) && parts.len() > 0 && is_label_token(parts.last()) && parts[0] == export_keyword()
}

/// The number of lines of `ls` that define exported labels.
pub open spec fn count_exports(ls: Seq<Seq<char>>) -> nat
    decreases ls.len(),
{
    if ls.len() == 0 {
        0
    } else {
        count_exports(ls.drop_last()) + if is_export_line(ls.last()) {
            1nat
        } else {
            0nat
        }
    }
}

/// Resolves an immediate operand at bytecode position `pos`. `.name` refers to a label: a
/// local label gives its address and an internal relocation at `pos`; any other name gives 0
/// and an external relocation at `pos`. Otherwise the operand is a `0x`-prefixed hexadecimal
/// or a decimal literal.
pub open spec fn resolve(m: ObjectModel, s: Seq<char>, pos: u16) -> (ObjectModel, Result<u16, ResolveError>) {
    if s.len() > 0 && s[0] == '.' {
        let name = trim(s.drop_first());
        if m.labels.contains_key(name) {
            if m.internal_relocations.len() >= MAX_LEN {
                (m, Err(ResolveError::InternalRelocationOverflow))
            } else {
                (
                    ObjectModel { internal_relocations: m.internal_relocations.push(pos), ..m },
                    Ok(m.labels[name]),
                )
            }
        } else {
            if m.external_relocations.len() >= MAX_LEN {
                (m, Err(ResolveError::ExternalRelocationOverflow))
            } else {
                (
                    ObjectModel {
                        external_relocations: m.external_relocations.push((name, pos)),
                        ..m
                    },
                    Ok(0),
                )
            }
        }
    } else if s.len() >= 2 && s[0] == '0' && s[1] == 'x' {
        match hex_literal(s.subrange(2, s.len() as int)) {
            Ok(v) => (m, Ok(v)),
            Err(e) => (m, Err(ResolveError::LiteralError(e))),
        }
    } else {
        match dec_literal(s) {
            Ok(v) => (m, Ok(v)),
            Err(e) => (m, Err(ResolveError::LiteralError(e))),
        }
    }
}

/// Emits operand `pi` of the instruction on line `idx` (counted from 0).
pub open spec fn operand(m: ObjectModel, parts: Seq<Seq<char>>, idx: int, kind: OperandKind, pi: int) -> (
    ObjectModel,
    Result<(), AssembleErrorView>,
) {
    if pi >= parts.len() {
        (m, Err(AssembleErrorView::MissingArgument { line: (idx + 1) as usize, index: pi as usize }))
    } else {
        match kind {
            OperandKind::Reg => match spec_parse_reg(parts[pi]) {
                None => (m, Err(AssembleErrorView::ParseError(ParseError::InvalidRegister))),
                Some(r) => if m.bytecode.len() >= MAX_LEN {
                    (m, Err(AssembleErrorView::BytecodeTooLarge))
                } else {
                    (
                        ObjectModel { bytecode: m.bytecode.push(spec_register_index(r)), ..m },
                        Ok(()),
                    )
                },
            },
            OperandKind::Imm => {
                let (m1, v) = resolve(m, parts[pi], m.bytecode.len() as u16);
                match v {
                    Err(e) => (m1, Err(AssembleErrorView::ResolveError(e))),
                    Ok(x) => if m1.bytecode.len() + 2 > MAX_LEN {
                        (m1, Err(AssembleErrorView::BytecodeTooLarge))
                    } else {
                        (ObjectModel { bytecode: m1.bytecode + be_bytes(x), ..m1 }, Ok(()))
                    },
                }
            },
        }
    }
}

/// Emits the operands of `plan`, the `k`-th of them taken from part `k` (counting from 1).
pub open spec fn operands(m: ObjectModel, parts: Seq<Seq<char>>, idx: int, plan: Seq<OperandKind>) -> (
    ObjectModel,
    Result<(), AssembleErrorView>,
)
    decreases plan.len(),
{
    if plan.len() == 0 {
        (m, Ok(()))
    } else {
        let (m1, r) = operands(m, parts, idx, plan.drop_last());
        match r {
            Err(e) => (m1, Err(e)),
            Ok(()) => operand(m1, parts, idx, plan.last(), plan.len() as int),
        }
    }
}

/// Assembles the instruction whose operand-separated parts are `parts`, on line `idx`.
pub open spec fn assemble_parts(m: ObjectModel, parts: Seq<Seq<char>>, idx: int) -> (
    ObjectModel,
    Result<(), AssembleErrorView>,
) {
    if parts.len() == 0 {
        (m, Err(AssembleErrorView::MissingOpcode { line: (idx + 1) as usize }))
    } else {
        match spec_op_from_name(parts[0]) {
            None => (
                m,
                Err(AssembleErrorView::UnknownOpcode { line: (idx + 1) as usize, opcode: parts[0] }),
            ),
            Some(op) => if m.bytecode.len() >= MAX_LEN {
                (m, Err(AssembleErrorView::BytecodeTooLarge))
            } else {
                operands(
                    ObjectModel { bytecode: m.bytecode.push(spec_op_code(op)), ..m },
                    parts,
                    idx,
                    spec_operands(spec_arg_type(op)),
                )
            },
        }
    }
}

/// Second pass over one line: statements are split at spaces and commas and assembled;
/// blank lines, comments and label definitions are skipped.
pub open spec fn asm_line(m: ObjectModel, line: Seq<char>, idx: int) -> (
    ObjectModel,
    Result<(), AssembleErrorView>,
) {
    let t = trim(line);
    if is_blank(t) || t.last() == ':' {
        (m, Ok(()))
    } else {
        assemble_parts(m, split(t, Sep::SpaceComma, false), idx)
    }
}

/// The second pass over the first `k` lines, stopping at the first error.
pub open spec fn asm_lines(m: ObjectModel, ls: Seq<Seq<char>>, k: int) -> (
    ObjectModel,
    Result<(), AssembleErrorView>,
)
    decreases k,
{
    if k <= 0 {
        (m, Ok(()))
    } else {
        let (m1, r) = asm_lines(m, ls, k - 1);
        match r {
            Err(e) => (m1, Err(e)),
            Ok(()) => asm_line(m1, ls[k - 1], k - 1),
        }
    }
}

/// Assembling `text` into `m`: labels are collected by the first pass, then every line is
/// assembled by the second.
pub open spec fn spec_assemble(m: ObjectModel, text: Seq<char>) -> (
    ObjectModel,
    Result<(), AssembleErrorView>,
) {
    let ls = lines(text);
    let (m1, _) = scan_lines(m, ls);
    asm_lines(m1, ls, ls.len() as int)
}

/// The operand slots of a shape, in order.
fn operand_plan(a: Arguments) -> (r: Vec<OperandKind>)
    ensures
        r@ == spec_operands(a),
{
    let r = match a {
        Arguments::NoArgs => vec![],
        Arguments::Reg => vec![OperandKind::Reg],
        Arguments::RegReg => vec![OperandKind::Reg, OperandKind::Reg],
        Arguments::RegImm => vec![OperandKind::Reg, OperandKind::Imm],
        Arguments::ImmImm => vec![OperandKind::Imm, OperandKind::Imm],
        Arguments::RegImmReg => vec![OperandKind::Reg, OperandKind::Imm, OperandKind::Reg],
        Arguments::ImmReg => vec![OperandKind::Imm, OperandKind::Reg],
        Arguments::Imm => vec![OperandKind::Imm],
        Arguments::RegImmImm => vec![OperandKind::Reg, OperandKind::Imm, OperandKind::Imm],
    };
    assert(r@ =~= spec_operands(a));
    r
}

proof fn lemma_count_exports_mono(ls: Seq<Seq<char>>, j: int)
    requires
        0 <= j <= ls.len(),
    ensures
        count_exports(ls.take(j)) <= count_exports(ls),
    decreases ls.len() - j,
{
    if j < ls.len() {
        assert(ls.take(j + 1).drop_last() =~= ls.take(j));
        lemma_count_exports_mono(ls, j + 1);
    } else {
        assert(ls.take(j) =~= ls);
    }
}

proof fn lemma_asm_lines_err_persists(m: ObjectModel, ls: Seq<Seq<char>>, k: int, n: int)
    requires
        0 <= k <= n,
        asm_lines(m, ls, k).1 is Err,
    ensures
        asm_lines(m, ls, n) == asm_lines(m, ls, k),
    decreases n - k,
{
    if k < n {
        lemma_asm_lines_err_persists(m, ls, k, n - 1);
    }
}

proof fn lemma_operands_err_persists(
    m: ObjectModel,
    parts: Seq<Seq<char>>,
    idx: int,
    plan: Seq<OperandKind>,
    k: int,
)
    requires
        0 <= k <= plan.len(),
        operands(m, parts, idx, plan.take(k)).1 is Err,
    ensures
        operands(m, parts, idx, plan) == operands(m, parts, idx, plan.take(k)),
    decreases plan.len() - k,
{
    if k < plan.len() {
        assert(plan.take(k + 1).drop_last() =~= plan.take(k));
        lemma_operands_err_persists(m, parts, idx, plan, k + 1);
    } else {
        assert(plan.take(k) =~= plan);
    }
}

/// Collects labels: the first pass over the lines `lines` of `text`.
fn scan_labels(text: &Vec<char>, lines: &Vec<(usize, usize)>, objfile: &mut ObjectFile)
    requires
        ranges_within(lines@, 0, text@.len() as int),
        old(objfile)@.exports.len() + count_exports(range_texts(text@, lines@)) <= MAX_LEN,
    ensures
        final(objfile)@ == scan_lines(old(objfile)@, range_texts(text@, lines@)).0,
{
    let ghost ls = range_texts(text@, lines@);
    let ghost m0 = objfile@;
    let mut pc: u16 = 0;
    let mut k: usize = 0;
    assert(ls.take(0) =~= Seq::<Seq<char>>::empty());
    while k < lines.len()
        invariant
            ls == range_texts(text@, lines@),
            ls.len() == lines@.len(),
            ranges_within(lines@, 0, text@.len() as int),
            k <= lines@.len(),
            (objfile@, pc) == scan_lines(m0, ls.take(k as int)),
            objfile@.exports.len() == m0.exports.len() + count_exports(ls.take(k as int)),
            m0.exports.len() + count_exports(ls) <= MAX_LEN,
        decreases lines@.len() - k,
    {
        proof {
            lemma_count_exports_mono(ls, k + 1);
        }
        assert(ls.take(k + 1).drop_last() =~= ls.take(k as int));
        assert(ls.take(k + 1).last() == ls[k as int]);
        let (a, b) = lines[k];
        assert(ls[k as int] == text@.subrange(a as int, b as int));
        let (ta, tb) = trim_range(text, a, b);
        let ghost t = text@.subrange(ta as int, tb as int);
        if ta < tb && text[ta] != ';' {
            assert(t[0] == text@[ta as int]);
            let parts = split_ranges(text, ta, tb, Sep::White, false);
            let ghost pv = range_texts(text@, parts@);
            let np = parts.len();
            if np > 0 {
                let (la, lb) = parts[np - 1];
                assert(pv.last() == text@.subrange(la as int, lb as int));
                if lb > la && text[lb - 1] == ':' {
                    assert(pv.last().last() == text@[lb - 1]);
                    assert(pv.last().drop_last() =~= text@.subrange(la as int, lb - 1));
                    let (fa, fb) = parts[0];
                    assert(pv[0] == text@.subrange(fa as int, fb as int));
                    if chars_eq(text.as_slice(), fa, fb, &['E', 'X', 'P', 'O', 'R', 'T']) {
                        assert(pv[0] == export_keyword());
                        let name = string_from_chars(slice_subrange(text.as_slice(), la, lb - 1));
                        let ghost before = objfile@.exports;
                        let _ = objfile.exports.push((name, pc));
                        assert(objfile@.exports =~= before.push((name@, pc)));
                    } else {
                        let label = slice_to_vec(slice_subrange(text.as_slice(), la, lb - 1));
                        objfile.labels.insert(label, pc);
                    }
                } else {
                    let (fa, fb) = parts[0];
                    assert(pv[0] == text@.subrange(fa as int, fb as int));
                    match Operation::from_mnemonic(text.as_slice(), fa, fb) {
                        Some(op) => {
                            pc = ((pc as u32 + op.arg_type().to_offset() as u32) % 0x10000) as u16;
                        },
                        None => {},
                    }
                }
            }
        }
        k += 1;
    }
    assert(ls.take(k as int) =~= ls);
}

/// A text never has more export lines than lines.
proof fn lemma_count_exports_bound(ls: Seq<Seq<char>>)
    ensures
        count_exports(ls) <= ls.len(),
    decreases ls.len(),
{
    if ls.len() > 0 {
        lemma_count_exports_bound(ls.drop_last());
    }
}

/// Whether the line `text[a..b]` defines an exported label.
fn is_export_range(text: &Vec<char>, a: usize, b: usize) -> (r: bool)
    requires
        a <= b <= text@.len(),
    ensures
        r == is_export_line(text@.subrange(a as int, b as int)),
{
    let (ta, tb) = trim_range(text, a, b);
    let ghost t = text@.subrange(ta as int, tb as int);
    if ta >= tb || text[ta] == ';' {
        proof {
            if ta < tb {
                assert(t[0] == text@[ta as int]);
            }
        }
        return false;
    }
    assert(t[0] == text@[ta as int]);
    let parts = split_ranges(text, ta, tb, Sep::White, false);
    let ghost pv = range_texts(text@, parts@);
    let np = parts.len();
    if np == 0 {
        return false;
    }
    let (la, lb) = parts[np - 1];
    assert(pv.last() == text@.subrange(la as int, lb as int));
    if lb <= la || text[lb - 1] != ':' {
        proof {
            if lb > la {
                assert(pv.last().last() == text@[lb - 1]);
            }
        }
        return false;
    }
    assert(pv.last().last() == text@[lb - 1]);
    let (fa, fb) = parts[0];
    assert(pv[0] == text@.subrange(fa as int, fb as int));
    chars_eq(text.as_slice(), fa, fb, &['E', 'X', 'P', 'O', 'R', 'T'])
}

impl View for Assembler {
    type V = ObjectModel;

    closed spec fn view(&self) -> ObjectModel {
        self.objfile@
    }
}

impl Assembler {
    /// An assembler whose object file is named `name` and still empty.
    pub fn new(name: &str) -> (r: Assembler)
        ensures
            r@ == (ObjectModel {
                name: name@,
                internal_relocations: Seq::empty(),
                external_relocations: Seq::empty(),
                labels: Map::empty(),
                exports: Seq::empty(),
                bytecode: Seq::empty(),
                base_address: 0,
            }),
    {
        Assembler { objfile: ObjectFile::new(name.to_owned()) }
    }

    /// The object file assembled so far.
    pub fn get_object(&self) -> (r: &ObjectFile)
        ensures
            r@ == self@,
    {
        &self.objfile
    }

    /// The number of lines of `input` that define exported labels: the entries that
    /// `assemble` adds to the export table.
    pub fn count_export_lines(input: &str) -> (r: usize)
        ensures
            r == count_exports(lines(input@)),
    {
        let text = chars_of(input);
        let line_ranges = split_ranges(&text, 0, text.len(), Sep::Newline, true);
        assert(text@.subrange(0, text@.len() as int) =~= text@);
        let ghost ls = range_texts(text@, line_ranges@);
        let mut n: usize = 0;
        let mut k: usize = 0;
        assert(ls.take(0) =~= Seq::<Seq<char>>::empty());
        while k < line_ranges.len()
            invariant
                ls == range_texts(text@, line_ranges@),
                ls.len() == line_ranges@.len(),
                ranges_within(line_ranges@, 0, text@.len() as int),
                k <= line_ranges@.len(),
                n == count_exports(ls.take(k as int)),
            decreases line_ranges@.len() - k,
        {
            proof {
                lemma_count_exports_bound(ls.take(k as int));
            }
            assert(ls.take(k + 1).drop_last() =~= ls.take(k as int));
            assert(ls.take(k + 1).last() == ls[k as int]);
            let (a, b) = line_ranges[k];
            assert(ls[k as int] == text@.subrange(a as int, b as int));
            if is_export_range(&text, a, b) {
                n += 1;
            }
            k += 1;
        }
        assert(ls.take(k as int) =~= ls);
        n
    }

    /// Resolves the immediate `text[sa..sb]` at bytecode position `imm_pos`.
    fn resolve_value(objfile: &mut ObjectFile, text: &Vec<char>, sa: usize, sb: usize, imm_pos: u16) -> (r:
        Result<u16, ResolveError>)
        requires
            sa <= sb <= text@.len(),
        ensures
            (final(objfile)@, r) == resolve(old(objfile)@, text@.subrange(sa as int, sb as int), imm_pos),
    {
        let ghost s = text@.subrange(sa as int, sb as int);
        if sb > sa && text[sa] == '.' {
            assert(s.drop_first() =~= text@.subrange(sa + 1, sb as int));
            let (na, nb) = trim_range(text, sa + 1, sb);
            match objfile.labels.get(text.as_slice(), na, nb) {
                Some(local_offset) => {
                    let ghost before = objfile@;
                    if objfile.internal_relocations.push(imm_pos).is_err() {
                        return Err(ResolveError::InternalRelocationOverflow);
                    }
                    assert(objfile@ =~= (ObjectModel {
                        internal_relocations: before.internal_relocations.push(imm_pos),
                        ..before
                    }));
                    Ok(local_offset)
                },
                None => {
                    let name = string_from_chars(slice_subrange(text.as_slice(), na, nb));
                    let ghost before = objfile@;
                    let ghost entry = (name@, imm_pos);
                    if objfile.external_relocations.push((name, imm_pos)).is_err() {
                        return Err(ResolveError::ExternalRelocationOverflow);
                    }
                    assert(objfile@ =~= (ObjectModel {
                        external_relocations: before.external_relocations.push(entry),
                        ..before
                    }));
                    Ok(0)
                },
            }
        } else if sb - sa >= 2 && text[sa] == '0' && text[sa + 1] == 'x' {
            assert(s.subrange(2, s.len() as int) =~= text@.subrange(sa + 2, sb as int));
            match parse_hex_u16(slice_subrange(text.as_slice(), sa + 2, sb)) {
                Ok(v) => Ok(v),
                Err(e) => Err(ResolveError::LiteralError(e)),
            }
        } else {
            match parse_dec_u16(slice_subrange(text.as_slice(), sa, sb)) {
                Ok(v) => Ok(v),
                Err(e) => Err(ResolveError::LiteralError(e)),
            }
        }
    }

    /// Emits the register operand `parts[idx]`.
    fn push_reg(&mut self, text: &Vec<char>, parts: &Vec<(usize, usize)>, idx: usize, line_num: usize) -> (r:
        Result<(), AssembleError>)
        requires
            ranges_within(parts@, 0, text@.len() as int),
            line_num < usize::MAX,
        ensures
            (final(self)@, outcome(r)) == operand(
                old(self)@,
                range_texts(text@, parts@),
                line_num as int,
                OperandKind::Reg,
                idx as int,
            ),
    {
        if idx >= parts.len() {
            return Err(AssembleError::MissingArgument { line: line_num + 1, index: idx });
        }
        let (a, b) = parts[idx];
        let reg = match parse_reg(text, a, b) {
            Some(reg) => reg,
            None => return Err(AssembleError::ParseError(ParseError::InvalidRegister)),
        };
        let ghost before = self@;
        if self.objfile.bytecode.push(reg.index()).is_err() {
            return Err(AssembleError::BytecodeTooLarge);
        }
        assert(self@ =~= (ObjectModel {
            bytecode: before.bytecode.push(spec_register_index(reg)),
            ..before
        }));
        Ok(())
    }

    /// Resolves the immediate operand `parts[idx]` and emits its big-endian bytes.
    fn push_imm(&mut self, text: &Vec<char>, parts: &Vec<(usize, usize)>, idx: usize, line_num: usize) -> (r:
        Result<(), AssembleError>)
        requires
            ranges_within(parts@, 0, text@.len() as int),
            line_num < usize::MAX,
        ensures
            (final(self)@, outcome(r)) == operand(
                old(self)@,
                range_texts(text@, parts@),
                line_num as int,
                OperandKind::Imm,
                idx as int,
            ),
    {
        let imm_pos = self.objfile.bytecode.len();
        if idx >= parts.len() {
            return Err(AssembleError::MissingArgument { line: line_num + 1, index: idx });
        }
        let (a, b) = parts[idx];
        let val = match Self::resolve_value(&mut self.objfile, text, a, b, imm_pos) {
            Ok(v) => v,
            Err(e) => return Err(AssembleError::ResolveError(e)),
        };
        let ghost before = self@;
        if self.objfile.bytecode.len() as usize + 2 > MAX_LEN {
            return Err(AssembleError::BytecodeTooLarge);
        }
        let _ = self.objfile.bytecode.push((val / 256) as u8);
        let _ = self.objfile.bytecode.push((val % 256) as u8);
        assert(self@.bytecode =~= before.bytecode + be_bytes(val));
        assert(self@ =~= (ObjectModel { bytecode: before.bytecode + be_bytes(val), ..before }));
        Ok(())
    }

    /// Assembles the statement `text[ta..tb]` of line `line_num` (counted from 0).
    #[verifier::loop_isolation(false)]
    fn assemble_line(&mut self, text: &Vec<char>, ta: usize, tb: usize, line_num: usize) -> (r:
        Result<(), AssembleError>)
        requires
            ta <= tb <= text@.len(),
            line_num < usize::MAX,
        ensures
            (final(self)@, outcome(r)) == assemble_parts(
                old(self)@,
                split(text@.subrange(ta as int, tb as int), Sep::SpaceComma, false),
                line_num as int,
            ),
    {
        let parts = split_ranges(text, ta, tb, Sep::SpaceComma, false);
        let ghost pv = range_texts(text@, parts@);
        if parts.len() == 0 {
            return Err(AssembleError::MissingOpcode { line: line_num + 1 });
        }
        let (fa, fb) = parts[0];
        assert(pv[0] == text@.subrange(fa as int, fb as int));
        let op = match Operation::from_mnemonic(text.as_slice(), fa, fb) {
            Some(op) => op,
            None => {
                let opcode = string_from_chars(slice_subrange(text.as_slice(), fa, fb));
                return Err(AssembleError::UnknownOpcode { line: line_num + 1, opcode });
            },
        };
        let ghost before = self@;
        if self.objfile.bytecode.push(op.to_u8()).is_err() {
            return Err(AssembleError::BytecodeTooLarge);
        }
        let ghost m1 = self@;
        assert(m1 =~= (ObjectModel { bytecode: before.bytecode.push(spec_op_code(op)), ..before }));
        let plan = operand_plan(op.arg_type());
        let mut k: usize = 0;
        assert(plan@.take(0) =~= Seq::<OperandKind>::empty());
        while k < plan.len()
            invariant
                pv == range_texts(text@, parts@),
                ranges_within(parts@, 0, text@.len() as int),
                line_num < usize::MAX,
                k <= plan@.len() <= 3,
                (self@, Ok::<(), AssembleErrorView>(())) == operands(
                    m1,
                    pv,
                    line_num as int,
                    plan@.take(k as int),
                ),
            decreases plan@.len() - k,
        {
            assert(plan@.take(k + 1).drop_last() =~= plan@.take(k as int));
            assert(plan@.take(k + 1).last() == plan@[k as int]);
            let step = match plan[k] {
                OperandKind::Reg => self.push_reg(text, &parts, k + 1, line_num),
                OperandKind::Imm => self.push_imm(text, &parts, k + 1, line_num),
            };
            match step {
                Ok(()) => {},
                Err(e) => {
                    proof {
                        lemma_operands_err_persists(m1, pv, line_num as int, plan@, k + 1);
                    }
                    return Err(e);
                },
            }
            k += 1;
        }
        assert(plan@.take(k as int) =~= plan@);
        Ok(())
    }

    /// Assembles `input` into the object file: a first pass records every label at the address
    /// of the instruction that follows it, a second pass emits each instruction's opcode and
    /// operands. Assembly stops at the first error, keeping what was emitted before it.
    #[verifier::loop_isolation(false)]
    pub fn assemble(&mut self, input: &str) -> (r: Result<(), AssembleError>)
        requires
            old(self)@.exports.len() + count_exports(lines(input@)) <= MAX_LEN,
        ensures
            (final(self)@, outcome(r)) == spec_assemble(old(self)@, input@),
    {
        let text = chars_of(input);
        let line_ranges = split_ranges(&text, 0, text.len(), Sep::Newline, true);
        assert(text@.subrange(0, text@.len() as int) =~= text@);
        let ghost ls = range_texts(text@, line_ranges@);
        scan_labels(&text, &line_ranges, &mut self.objfile);
        let ghost m1 = self@;
        let mut k: usize = 0;
        while k < line_ranges.len()
            invariant
                ls == range_texts(text@, line_ranges@),
                ls.len() == line_ranges@.len(),
                ranges_within(line_ranges@, 0, text@.len() as int),
                k <= line_ranges@.len(),
                (self@, Ok::<(), AssembleErrorView>(())) == asm_lines(m1, ls, k as int),
            decreases line_ranges@.len() - k,
        {
            let (a, b) = line_ranges[k];
            assert(ls[k as int] == text@.subrange(a as int, b as int));
            let (ta, tb) = trim_range(&text, a, b);
            let ghost t = text@.subrange(ta as int, tb as int);
            if ta < tb && text[ta] != ';' && text[tb - 1] != ':' {
                assert(t[0] == text@[ta as int]);
                assert(t.last() == text@[tb - 1]);
                match self.assemble_line(&text, ta, tb, k) {
                    Ok(()) => {},
                    Err(e) => {
                        proof {
                            lemma_asm_lines_err_persists(m1, ls, k + 1, ls.len() as int);
                        }
                        return Err(e);
                    },
                }
            } else {
                proof {
                    if ta < tb {
                        assert(t[0] == text@[ta as int]);
                        assert(t.last() == text@[tb - 1]);
                    }
                }
            }
            k += 1;
        }
        Ok(())
    }
}

/// Resolving an operand touches only the relocation tables.
proof fn lemma_resolve_frame(m: ObjectModel, s: Seq<char>, pos: u16)
    ensures
        resolve(m, s, pos).0.bytecode == m.bytecode,
        resolve(m, s, pos).0.labels == m.labels,
        resolve(m, s, pos).0.exports == m.exports,
{
}

/// Emitting an operand keeps the labels and exports; on success it appends the operand's bytes
/// to the bytecode.
proof fn lemma_operand_effect(m: ObjectModel, parts: Seq<Seq<char>>, idx: int, kind: OperandKind, pi: int)
    requires
        m.bytecode.len() <= MAX_LEN,
    ensures
        ({
            let (m1, r) = operand(m, parts, idx, kind, pi);
            &&& m1.labels == m.labels
            &&& m1.exports == m.exports
            &&& m1.bytecode.len() <= MAX_LEN
            &&& r is Ok ==> m1.bytecode.len() == m.bytecode.len() + spec_operand_size(kind)
                && m1.bytecode.subrange(0, m.bytecode.len() as int) == m.bytecode
        }),
{
    if pi < parts.len() {
        match kind {
            OperandKind::Reg => {
                if let Some(r) = spec_parse_reg(parts[pi]) {
                    assert(m.bytecode.push(spec_register_index(r)).subrange(
                        0,
                        m.bytecode.len() as int,
                    ) =~= m.bytecode);
                }
            },
            OperandKind::Imm => {
                let (m1, v) = resolve(m, parts[pi], m.bytecode.len() as u16);
                lemma_resolve_frame(m, parts[pi], m.bytecode.len() as u16);
                if let Ok(x) = v {
                    assert((m1.bytecode + be_bytes(x)).subrange(0, m.bytecode.len() as int)
                        =~= m.bytecode);
                }
            },
        }
    }
}

/// The slots before slot `j` and slot `j` itself take no more bytes than the whole plan.
proof fn lemma_prefix_size(ks: Seq<OperandKind>, j: int)
    requires
        0 <= j < ks.len(),
    ensures
        spec_operands_size(ks.take(j)) + spec_operand_size(ks[j]) <= spec_operands_size(ks),
    decreases ks.len(),
{
    if j < ks.len() - 1 {
        lemma_prefix_size(ks.drop_last(), j);
        assert(ks.drop_last().take(j) =~= ks.take(j));
    } else {
        assert(ks.take(j) =~= ks.drop_last());
    }
}

/// Emitting a list of operands puts each register operand, as its register's byte, at the
/// offset that the slots before it give.
proof fn lemma_operands_registers(
    m: ObjectModel,
    parts: Seq<Seq<char>>,
    idx: int,
    plan: Seq<OperandKind>,
    j: int,
)
    requires
        m.bytecode.len() <= MAX_LEN,
        operands(m, parts, idx, plan).1 is Ok,
        0 <= j < plan.len(),
        plan[j] == OperandKind::Reg,
    ensures
        spec_parse_reg(parts[j + 1]) is Some,
        operands(m, parts, idx, plan).0.bytecode[m.bytecode.len() + spec_operands_size(plan.take(j)) as int]
            == spec_register_index(spec_parse_reg(parts[j + 1])->Some_0),
    decreases plan.len(),
{
    let init = plan.drop_last();
    lemma_operands_effect(m, parts, idx, init);
    let (m1, r) = operands(m, parts, idx, init);
    lemma_operand_effect(m1, parts, idx, plan.last(), plan.len() as int);
    let m2 = operands(m, parts, idx, plan).0;
    if j < plan.len() - 1 {
        lemma_operands_registers(m, parts, idx, init, j);
        assert(init.take(j) =~= plan.take(j));
        let p: int = m.bytecode.len() + spec_operands_size(plan.take(j)) as int;
        lemma_prefix_size(init, j);
        assert(p < m1.bytecode.len());
        assert(m2.bytecode.subrange(0, m1.bytecode.len() as int)[p] == m2.bytecode[p]);
    } else {
        assert(plan.take(j) =~= init);
    }
}

/// Emitting a list of operands keeps the labels and exports; on success it appends their
/// bytes to the bytecode.
proof fn lemma_operands_effect(m: ObjectModel, parts: Seq<Seq<char>>, idx: int, plan: Seq<OperandKind>)
    requires
        m.bytecode.len() <= MAX_LEN,
    ensures
        ({
            let (m1, r) = operands(m, parts, idx, plan);
            &&& m1.labels == m.labels
            &&& m1.exports == m.exports
            &&& m1.bytecode.len() <= MAX_LEN
            &&& r is Ok ==> m1.bytecode.len() == m.bytecode.len() + spec_operands_size(plan)
                && m1.bytecode.subrange(0, m.bytecode.len() as int) == m.bytecode
        }),
    decreases plan.len(),
{
    if plan.len() > 0 {
        lemma_operands_effect(m, parts, idx, plan.drop_last());
        let (m1, r) = operands(m, parts, idx, plan.drop_last());
        if r is Ok {
            lemma_operand_effect(m1, parts, idx, plan.last(), plan.len() as int);
            let m2 = operand(m1, parts, idx, plan.last(), plan.len() as int).0;
            assert(m2.bytecode.subrange(0, m.bytecode.len() as int) =~= m2.bytecode.subrange(
                0,
                m1.bytecode.len() as int,
            ).subrange(0, m.bytecode.len() as int));
        }
    }
}

/// Assembling a statement keeps the labels and exports.
proof fn lemma_parts_frame(m: ObjectModel, parts: Seq<Seq<char>>, idx: int)
    requires
        m.bytecode.len() <= MAX_LEN,
    ensures
        assemble_parts(m, parts, idx).0.labels == m.labels,
        assemble_parts(m, parts, idx).0.exports == m.exports,
        assemble_parts(m, parts, idx).0.bytecode.len() <= MAX_LEN,
{
    if parts.len() > 0 {
        if let Some(op) = spec_op_from_name(parts[0]) {
            if m.bytecode.len() < MAX_LEN {
                lemma_operands_effect(
                    ObjectModel { bytecode: m.bytecode.push(spec_op_code(op)), ..m },
                    parts,
                    idx,
                    spec_operands(spec_arg_type(op)),
                );
            }
        }
    }
}

/// An assembled statement is its opcode byte followed by its operands: the bytecode grows by
/// exactly the instruction length of the statement's operation, and what was emitted before
/// stays as it was.
pub proof fn lemma_statement_length(m: ObjectModel, parts: Seq<Seq<char>>, idx: int)
    requires
        m.bytecode.len() <= MAX_LEN,
        assemble_parts(m, parts, idx).1 is Ok,
    ensures
        parts.len() > 0,
        spec_op_from_name(parts[0]) is Some,
        ({
            let op = spec_op_from_name(parts[0])->Some_0;
            let c = assemble_parts(m, parts, idx).0.bytecode;
            &&& c.len() == m.bytecode.len() + spec_to_offset(spec_arg_type(op))
            &&& c.len() <= MAX_LEN
            &&& c.subrange(0, m.bytecode.len() as int) == m.bytecode
            &&& c[m.bytecode.len() as int] == spec_op_code(op)
        }),
{
    let op = spec_op_from_name(parts[0])->Some_0;
    let m1 = ObjectModel { bytecode: m.bytecode.push(spec_op_code(op)), ..m };
    lemma_operands_effect(m1, parts, idx, spec_operands(spec_arg_type(op)));
    lemma_instruction_length(spec_arg_type(op));
    let c = assemble_parts(m, parts, idx).0.bytecode;
    assert(c.subrange(0, m.bytecode.len() as int) =~= c.subrange(0, m1.bytecode.len() as int).subrange(
        0,
        m.bytecode.len() as int,
    ));
    assert(c[m.bytecode.len() as int] == c.subrange(0, m1.bytecode.len() as int)[m.bytecode.len() as int]);
}

/// An assembled statement holds each register operand where the operand plan of its
/// operation puts it: the part written for register slot `j` names a register, and that
/// register's byte stands at the slot's offset from the opcode, one for the opcode plus the
/// sizes of the slots before it.
pub proof fn lemma_register_operands(m: ObjectModel, parts: Seq<Seq<char>>, idx: int, j: int)
    requires
        m.bytecode.len() <= MAX_LEN,
        assemble_parts(m, parts, idx).1 is Ok,
        parts.len() > 0,
        spec_op_from_name(parts[0]) matches Some(op) && 0 <= j < spec_operands(spec_arg_type(op)).len()
            && spec_operands(spec_arg_type(op))[j] == OperandKind::Reg,
    ensures
        spec_parse_reg(parts[j + 1]) is Some,
        assemble_parts(m, parts, idx).0.bytecode[m.bytecode.len() + 1 + spec_operands_size(
            spec_operands(spec_arg_type(spec_op_from_name(parts[0])->Some_0)).take(j),
        ) as int] == spec_register_index(spec_parse_reg(parts[j + 1])->Some_0),
{
    let op = spec_op_from_name(parts[0])->Some_0;
    let m1 = ObjectModel { bytecode: m.bytecode.push(spec_op_code(op)), ..m };
    lemma_operands_registers(m1, parts, idx, spec_operands(spec_arg_type(op)), j);
}

/// The second pass keeps the labels and exports that the first pass collected.
proof fn lemma_asm_lines_frame(m: ObjectModel, ls: Seq<Seq<char>>, k: int)
    requires
        m.bytecode.len() <= MAX_LEN,
    ensures
        asm_lines(m, ls, k).0.labels == m.labels,
        asm_lines(m, ls, k).0.exports == m.exports,
        asm_lines(m, ls, k).0.bytecode.len() <= MAX_LEN,
    decreases k,
{
    if k > 0 {
        lemma_asm_lines_frame(m, ls, k - 1);
        let (m1, r) = asm_lines(m, ls, k - 1);
        if r is Ok {
            let t = trim(ls[k - 1]);
            if !(is_blank(t) || t.last() == ':') {
                lemma_parts_frame(m1, split(t, Sep::SpaceComma, false), k - 1);
            }
        }
    }
}

/// The first pass never touches the bytecode.
proof fn lemma_scan_lines_bytecode(m: ObjectModel, ls: Seq<Seq<char>>)
    ensures
        scan_lines(m, ls).0.bytecode == m.bytecode,
    decreases ls.len(),
{
    if ls.len() > 0 {
        lemma_scan_lines_bytecode(m, ls.drop_last());
    }
}

/// Whether both passes read the same mnemonic on a line. The first pass takes the first
/// whitespace-separated token of a statement, the second the first part between spaces and
/// commas; they differ on a statement such as `HALT,` or one with a tab after its mnemonic.
pub open spec fn mnemonic_agrees(line: Seq<char>) -> bool {
    let t = trim(line);
    let ws = split(t, Sep::White, false);
    let sc = split(t, Sep::SpaceComma, false);
    ||| is_blank(t)
    ||| t.last() == ':'
    ||| (ws.len() > 0 && sc.len() > 0 && spec_op_from_name(ws[0]) == spec_op_from_name(sc[0]))
}

/// The local label that a line defines, if any.
pub open spec fn local_label(line: Seq<char>) -> Option<Seq<char>> {
    let t = trim(line);
    let parts = split(t, Sep::White, false);
    if !is_blank(t) && parts.len() > 0 && is_label_token(parts.last()) && parts[0]
        != export_keyword() {
        Some(parts.last().drop_last())
    } else {
        None
    }
}

/// The exported label that a line defines, if any.
pub open spec fn exported_label(line: Seq<char>) -> Option<Seq<char>> {
    let t = trim(line);
    let parts = split(t, Sep::White, false);
    if !is_blank(t) && parts.len() > 0 && is_label_token(parts.last()) && parts[0]
        == export_keyword() {
        Some(parts.last().drop_last())
    } else {
        None
    }
}

/// On a line that the second pass assembles, the first pass advances its address by the number
/// of bytes that the second pass emits.
proof fn lemma_line_advance(ms: ObjectModel, mk: ObjectModel, pc: u16, line: Seq<char>, idx: int)
    requires
        asm_line(mk, line, idx).1 is Ok,
        mnemonic_agrees(line),
        mk.bytecode.len() == pc,
        mk.bytecode.len() <= MAX_LEN,
    ensures
        scan_line(ms, pc, line).1 == asm_line(mk, line, idx).0.bytecode.len(),
{
    let t = trim(line);
    lemma_trim_last(line);
    if is_blank(t) {
    } else if t.last() == ':' {
        lemma_split_last(t, Sep::White);
    } else {
        lemma_split_last(t, Sep::White);
        lemma_statement_length(mk, split(t, Sep::SpaceComma, false), idx);
    }
}

/// The two passes agree on addresses: after a successful assembly into an object with no
/// bytecode yet, the address that the first pass reaches before line `k` is the length of the
/// bytecode that the second pass emitted for the lines before it, on every text whose lines are
/// read with the same mnemonic by both passes.
pub proof fn lemma_first_pass_addresses(m: ObjectModel, text: Seq<char>, k: int)
    requires
        m.bytecode.len() == 0,
        spec_assemble(m, text).1 is Ok,
        forall|i: int| 0 <= i < lines(text).len() ==> mnemonic_agrees(#[trigger] lines(text)[i]),
        0 <= k <= lines(text).len(),
    ensures
        scan_lines(m, lines(text).take(k)).1 == asm_lines(
            scan_lines(m, lines(text)).0,
            lines(text),
            k,
        ).0.bytecode.len(),
        asm_lines(scan_lines(m, lines(text)).0, lines(text), k).1 is Ok,
    decreases k,
{
    let ls = lines(text);
    let m1 = scan_lines(m, ls).0;
    lemma_scan_lines_bytecode(m, ls);
    if asm_lines(m1, ls, k).1 is Err {
        lemma_asm_lines_err_persists(m1, ls, k, ls.len() as int);
    }
    if k == 0 {
        assert(ls.take(0) =~= Seq::<Seq<char>>::empty());
    } else {
        lemma_first_pass_addresses(m, text, k - 1);
        lemma_asm_lines_frame(m1, ls, k - 1);
        assert(ls.take(k).drop_last() =~= ls.take(k - 1));
        assert(ls.take(k).last() == ls[k - 1]);
        let (ms, pc) = scan_lines(m, ls.take(k - 1));
        let mk = asm_lines(m1, ls, k - 1).0;
        lemma_line_advance(ms, mk, pc, ls[k - 1], k - 1);
    }
}

/// Scanning a line defines its local label at the current address and appends its exported
/// label, with that address, to the exports.
proof fn lemma_scan_line_labels(m: ObjectModel, pc: u16, line: Seq<char>)
    ensures
        scan_line(m, pc, line).0.labels == (match local_label(line) {
            Some(n) => m.labels.insert(n, pc),
            None => m.labels,
        }),
        scan_line(m, pc, line).0.exports == (match exported_label(line) {
            Some(n) => m.exports.push((n, pc)),
            None => m.exports,
        }),
{
}

/// After the first pass has scanned past the last definition of a local label, the label holds
/// the address at which that definition was scanned.
proof fn lemma_scan_last_definition(m: ObjectModel, ls: Seq<Seq<char>>, j: int, name: Seq<char>, k: int)
    requires
        0 <= j < k <= ls.len(),
        local_label(ls[j]) == Some(name),
        forall|i: int| j < i < ls.len() ==> local_label(#[trigger] ls[i]) != Some(name),
    ensures
        scan_lines(m, ls.take(k)).0.labels.contains_key(name),
        scan_lines(m, ls.take(k)).0.labels[name] == scan_lines(m, ls.take(j)).1,
    decreases k,
{
    assert(ls.take(k).drop_last() =~= ls.take(k - 1));
    assert(ls.take(k).last() == ls[k - 1]);
    let (ms, pc) = scan_lines(m, ls.take(k - 1));
    lemma_scan_line_labels(ms, pc, ls[k - 1]);
    if k - 1 > j {
        lemma_scan_last_definition(m, ls, j, name, k - 1);
    }
}

/// A local label holds the address of the instruction that follows its last definition: the
/// length of the bytecode that the lines before that definition assemble to. This holds of a
/// successful assembly into an object with no bytecode yet, on a text whose lines both passes
/// read with the same mnemonic.
pub proof fn lemma_label_address(m: ObjectModel, text: Seq<char>, j: int, name: Seq<char>)
    requires
        m.bytecode.len() == 0,
        spec_assemble(m, text).1 is Ok,
        forall|i: int| 0 <= i < lines(text).len() ==> mnemonic_agrees(#[trigger] lines(text)[i]),
        0 <= j < lines(text).len(),
        local_label(lines(text)[j]) == Some(name),
        forall|i: int|
            j < i < lines(text).len() ==> local_label(#[trigger] lines(text)[i]) != Some(name),
    ensures
        spec_assemble(m, text).0.labels.contains_key(name),
        spec_assemble(m, text).0.labels[name] == asm_lines(
            scan_lines(m, lines(text)).0,
            lines(text),
            j,
        ).0.bytecode.len(),
{
    let ls = lines(text);
    let m1 = scan_lines(m, ls).0;
    lemma_scan_lines_bytecode(m, ls);
    lemma_scan_last_definition(m, ls, j, name, ls.len() as int);
    assert(ls.take(ls.len() as int) =~= ls);
    lemma_asm_lines_frame(m1, ls, ls.len() as int);
    lemma_first_pass_addresses(m, text, j);
}

/// Scanning keeps the exports found so far and appends one for each export line.
proof fn lemma_scan_exports(m: ObjectModel, ls: Seq<Seq<char>>, k: int, k2: int)
    requires
        0 <= k <= k2 <= ls.len(),
    ensures
        scan_lines(m, ls.take(k2)).0.exports.len() == m.exports.len() + count_exports(ls.take(k2)),
        scan_lines(m, ls.take(k)).0.exports.len() <= scan_lines(m, ls.take(k2)).0.exports.len(),
        forall|i: int|
            0 <= i < scan_lines(m, ls.take(k)).0.exports.len() ==> #[trigger] scan_lines(
                m,
                ls.take(k2),
            ).0.exports[i] == scan_lines(m, ls.take(k)).0.exports[i],
    decreases k2,
{
    if k2 == 0 {
        assert(ls.take(0) =~= Seq::<Seq<char>>::empty());
    } else {
        let k1 = if k < k2 {
            k
        } else {
            k2 - 1
        };
        lemma_scan_exports(m, ls, k1, k2 - 1);
        assert(ls.take(k2).drop_last() =~= ls.take(k2 - 1));
        assert(ls.take(k2).last() == ls[k2 - 1]);
        let (ms, pc) = scan_lines(m, ls.take(k2 - 1));
        lemma_scan_line_labels(ms, pc, ls[k2 - 1]);
        let e1 = scan_lines(m, ls.take(k2 - 1)).0.exports;
        let e2 = scan_lines(m, ls.take(k2)).0.exports;
        assert forall|i: int| 0 <= i < e1.len() implies e2[i] == e1[i] by {
        }
    }
}

/// An exported label is recorded with the address of the instruction that follows its
/// definition, in the order of the export lines, after the exports the object already had.
/// This holds of a successful assembly into an object with no bytecode yet, on a text whose
/// lines both passes read with the same mnemonic.
pub proof fn lemma_export_address(m: ObjectModel, text: Seq<char>, j: int)
    requires
        m.bytecode.len() == 0,
        spec_assemble(m, text).1 is Ok,
        forall|i: int| 0 <= i < lines(text).len() ==> mnemonic_agrees(#[trigger] lines(text)[i]),
        0 <= j < lines(text).len(),
        exported_label(lines(text)[j]) is Some,
    ensures
        ({
            let e = spec_assemble(m, text).0.exports;
            let i = (m.exports.len() + count_exports(lines(text).take(j))) as int;
            &&& i < e.len()
            &&& e[i].0 == exported_label(lines(text)[j])->Some_0
            &&& e[i].1 == asm_lines(scan_lines(m, lines(text)).0, lines(text), j).0.bytecode.len()
        }),
{
    let ls = lines(text);
    let m1 = scan_lines(m, ls).0;
    lemma_scan_lines_bytecode(m, ls);
    lemma_asm_lines_frame(m1, ls, ls.len() as int);
    lemma_first_pass_addresses(m, text, j);
    lemma_scan_exports(m, ls, j, j);
    lemma_scan_exports(m, ls, j + 1, ls.len() as int);
    assert(ls.take(ls.len() as int) =~= ls);
    assert(ls.take(j + 1).drop_last() =~= ls.take(j));
    assert(ls.take(j + 1).last() == ls[j]);
    let (ms, pc) = scan_lines(m, ls.take(j));
    lemma_scan_line_labels(ms, pc, ls[j]);
}

/// The big-endian word at positions `p` and `p + 1` of `c`.
pub open spec fn word_at(c: Seq<u8>, p: int) -> u16 {
    be_word(c[p], c[p + 1])
}

/// The relocation tables of an object fit its bytecode: every relocation starts a two-byte
/// word inside the bytecode, no two relocations overlap, the word of every internal relocation
/// is the address of a local label and the word of every external relocation is 0.
pub open spec fn relocations_sound(m: ObjectModel) -> bool {
    let ir = m.internal_relocations;
    let er = m.external_relocations;
    let c = m.bytecode;
    &&& forall|q: int|
        0 <= q < ir.len() ==> #[trigger] ir[q] + 2 <= c.len() && m.labels.contains_value(
            word_at(c, ir[q] as int),
        )
    &&& forall|q: int| 0 <= q < er.len() ==> #[trigger] er[q].1 + 2 <= c.len() && word_at(c, er[q].1 as int) == 0
    &&& forall|i: int, j: int|
        0 <= i < ir.len() && 0 <= j < ir.len() && i != j ==> apart(#[trigger] ir[i] as int, #[trigger] ir[j] as int)
    &&& forall|i: int, j: int|
        0 <= i < ir.len() && 0 <= j < er.len() ==> apart(#[trigger] ir[i] as int, #[trigger] er[j].1 as int)
    &&& forall|i: int, j: int|
        0 <= i < er.len() && 0 <= j < er.len() && i != j ==> apart(#[trigger] er[i].1 as int, #[trigger] er[j].1 as int)
}

/// Appending bytes keeps the relocation tables sound.
proof fn lemma_sound_extend(m: ObjectModel, m2: ObjectModel)
    requires
        relocations_sound(m),
        m2.labels == m.labels,
        m2.internal_relocations == m.internal_relocations,
        m2.external_relocations == m.external_relocations,
        m2.bytecode.len() >= m.bytecode.len(),
        m2.bytecode.subrange(0, m.bytecode.len() as int) == m.bytecode,
    ensures
        relocations_sound(m2),
{
    let c = m.bytecode;
    let c2 = m2.bytecode;
    assert forall|p: int| 0 <= p < c.len() implies c2[p] == c[p] by {
        assert(c2.subrange(0, c.len() as int)[p] == c2[p]);
    }
    let ir = m.internal_relocations;
    let er = m.external_relocations;
    assert forall|q: int| 0 <= q < ir.len() implies #[trigger] ir[q] + 2 <= c2.len()
        && m2.labels.contains_value(word_at(c2, ir[q] as int)) by {
        assert(word_at(c2, ir[q] as int) == word_at(c, ir[q] as int));
    }
    assert forall|q: int| 0 <= q < er.len() implies #[trigger] er[q].1 + 2 <= c2.len() && word_at(
        c2,
        er[q].1 as int,
    ) == 0 by {
        assert(word_at(c2, er[q].1 as int) == word_at(c, er[q].1 as int));
    }
}

/// A local reference at the end of the bytecode: an internal relocation there and the label's
/// address as its word keep the relocation tables sound.
proof fn lemma_sound_add_internal(m: ObjectModel, x: u16)
    requires
        relocations_sound(m),
        m.labels.contains_value(x),
        m.bytecode.len() <= 0xFFFF,
    ensures
        relocations_sound(
            ObjectModel {
                internal_relocations: m.internal_relocations.push(m.bytecode.len() as u16),
                bytecode: m.bytecode + be_bytes(x),
                ..m
            },
        ),
{
    let pos = m.bytecode.len() as u16;
    let m1 = ObjectModel { bytecode: m.bytecode + be_bytes(x), ..m };
    assert(m1.bytecode.subrange(0, m.bytecode.len() as int) =~= m.bytecode);
    lemma_sound_extend(m, m1);
    let m2 = ObjectModel { internal_relocations: m.internal_relocations.push(pos), ..m1 };
    let ir = m2.internal_relocations;
    let er = m2.external_relocations;
    let c = m2.bytecode;
    assert(word_at(c, pos as int) == x);
    assert forall|q: int| 0 <= q < ir.len() implies #[trigger] ir[q] + 2 <= c.len()
        && m2.labels.contains_value(word_at(c, ir[q] as int)) by {
        if q < m.internal_relocations.len() {
            assert(ir[q] == m.internal_relocations[q]);
        }
    }
    assert forall|i: int, j: int|
        0 <= i < ir.len() && 0 <= j < ir.len() && i != j implies apart(
        #[trigger] ir[i] as int,
        #[trigger] ir[j] as int,
    ) by {
        if i < m.internal_relocations.len() {
            assert(ir[i] == m.internal_relocations[i]);
            assert(m.internal_relocations[i] + 2 <= m.bytecode.len());
        }
        if j < m.internal_relocations.len() {
            assert(ir[j] == m.internal_relocations[j]);
            assert(m.internal_relocations[j] + 2 <= m.bytecode.len());
        }
    }
    assert forall|i: int, j: int| 0 <= i < ir.len() && 0 <= j < er.len() implies apart(
        #[trigger] ir[i] as int,
        #[trigger] er[j].1 as int,
    ) by {
        assert(er[j].1 + 2 <= m.bytecode.len());
        if i < m.internal_relocations.len() {
            assert(ir[i] == m.internal_relocations[i]);
        }
    }
}

/// A reference to a name that is not a local label, at the end of the bytecode: an external
/// relocation there and 0 as its word keep the relocation tables sound.
proof fn lemma_sound_add_external(m: ObjectModel, name: Seq<char>)
    requires
        relocations_sound(m),
        m.bytecode.len() <= 0xFFFF,
    ensures
        relocations_sound(
            ObjectModel {
                external_relocations: m.external_relocations.push((name, m.bytecode.len() as u16)),
                bytecode: m.bytecode + be_bytes(0),
                ..m
            },
        ),
{
    let pos = m.bytecode.len() as u16;
    let m1 = ObjectModel { bytecode: m.bytecode + be_bytes(0), ..m };
    assert(m1.bytecode.subrange(0, m.bytecode.len() as int) =~= m.bytecode);
    lemma_sound_extend(m, m1);
    let m2 = ObjectModel { external_relocations: m.external_relocations.push((name, pos)), ..m1 };
    let ir = m2.internal_relocations;
    let er = m2.external_relocations;
    let c = m2.bytecode;
    assert(word_at(c, pos as int) == 0);
    assert forall|q: int| 0 <= q < er.len() implies #[trigger] er[q].1 + 2 <= c.len() && word_at(
        c,
        er[q].1 as int,
    ) == 0 by {
        if q < m.external_relocations.len() {
            assert(er[q] == m.external_relocations[q]);
        }
    }
    assert forall|i: int, j: int|
        0 <= i < er.len() && 0 <= j < er.len() && i != j implies apart(
        #[trigger] er[i].1 as int,
        #[trigger] er[j].1 as int,
    ) by {
        if i < m.external_relocations.len() {
            assert(er[i] == m.external_relocations[i]);
            assert(m.external_relocations[i].1 + 2 <= m.bytecode.len());
        }
        if j < m.external_relocations.len() {
            assert(er[j] == m.external_relocations[j]);
            assert(m.external_relocations[j].1 + 2 <= m.bytecode.len());
        }
    }
    assert forall|i: int, j: int| 0 <= i < ir.len() && 0 <= j < er.len() implies apart(
        #[trigger] ir[i] as int,
        #[trigger] er[j].1 as int,
    ) by {
        assert(ir[i] + 2 <= m.bytecode.len());
        if j < m.external_relocations.len() {
            assert(er[j] == m.external_relocations[j]);
        }
    }
}

/// A successfully emitted operand keeps the relocation tables sound.
proof fn lemma_operand_sound(m: ObjectModel, parts: Seq<Seq<char>>, idx: int, kind: OperandKind, pi: int)
    requires
        relocations_sound(m),
        m.bytecode.len() <= MAX_LEN,
        operand(m, parts, idx, kind, pi).1 is Ok,
    ensures
        relocations_sound(operand(m, parts, idx, kind, pi).0),
{
    lemma_operand_effect(m, parts, idx, kind, pi);
    match kind {
        OperandKind::Reg => {
            lemma_sound_extend(m, operand(m, parts, idx, kind, pi).0);
        },
        OperandKind::Imm => {
            let s = parts[pi];
            if s.len() > 0 && s[0] == '.' {
                let name = trim(s.drop_first());
                if m.labels.contains_key(name) {
                    lemma_sound_add_internal(m, m.labels[name]);
                } else {
                    lemma_sound_add_external(m, name);
                }
            } else {
                lemma_sound_extend(m, operand(m, parts, idx, kind, pi).0);
            }
        },
    }
}

/// Successfully emitted operands keep the relocation tables sound.
proof fn lemma_operands_sound(m: ObjectModel, parts: Seq<Seq<char>>, idx: int, plan: Seq<OperandKind>)
    requires
        relocations_sound(m),
        m.bytecode.len() <= MAX_LEN,
        operands(m, parts, idx, plan).1 is Ok,
    ensures
        relocations_sound(operands(m, parts, idx, plan).0),
    decreases plan.len(),
{
    if plan.len() > 0 {
        lemma_operands_sound(m, parts, idx, plan.drop_last());
        lemma_operands_effect(m, parts, idx, plan.drop_last());
        let m1 = operands(m, parts, idx, plan.drop_last()).0;
        lemma_operand_sound(m1, parts, idx, plan.last(), plan.len() as int);
    }
}

/// A successfully assembled line keeps the relocation tables sound.
proof fn lemma_line_sound(m: ObjectModel, line: Seq<char>, idx: int)
    requires
        relocations_sound(m),
        m.bytecode.len() <= MAX_LEN,
        asm_line(m, line, idx).1 is Ok,
    ensures
        relocations_sound(asm_line(m, line, idx).0),
{
    let t = trim(line);
    if !(is_blank(t) || t.last() == ':') {
        let parts = split(t, Sep::SpaceComma, false);
        let op = spec_op_from_name(parts[0])->Some_0;
        let m1 = ObjectModel { bytecode: m.bytecode.push(spec_op_code(op)), ..m };
        assert(m1.bytecode.subrange(0, m.bytecode.len() as int) =~= m.bytecode);
        lemma_sound_extend(m, m1);
        lemma_operands_sound(m1, parts, idx, spec_operands(spec_arg_type(op)));
    }
}

/// The first pass touches neither the bytecode nor the relocation tables.
proof fn lemma_scan_lines_relocations(m: ObjectModel, ls: Seq<Seq<char>>)
    ensures
        scan_lines(m, ls).0.internal_relocations == m.internal_relocations,
        scan_lines(m, ls).0.external_relocations == m.external_relocations,
    decreases ls.len(),
{
    if ls.len() > 0 {
        lemma_scan_lines_relocations(m, ls.drop_last());
    }
}

proof fn lemma_asm_lines_sound(m: ObjectModel, ls: Seq<Seq<char>>, k: int)
    requires
        relocations_sound(m),
        m.bytecode.len() <= MAX_LEN,
        asm_lines(m, ls, k).1 is Ok,
    ensures
        relocations_sound(asm_lines(m, ls, k).0),
    decreases k,
{
    if k > 0 {
        lemma_asm_lines_sound(m, ls, k - 1);
        lemma_asm_lines_frame(m, ls, k - 1);
        lemma_line_sound(asm_lines(m, ls, k - 1).0, ls[k - 1], k - 1);
    }
}

/// Every immediate that names a label is recorded where it lies: in an object assembled
/// without errors into an empty object, each relocation starts a two-byte word of the
/// bytecode, no two relocations overlap, the word of each internal relocation is the address of
/// one of the object's local labels and the word of each external relocation is 0.
pub proof fn lemma_assembled_relocations(m: ObjectModel, text: Seq<char>)
    requires
        m.bytecode.len() == 0,
        m.internal_relocations.len() == 0,
        m.external_relocations.len() == 0,
        spec_assemble(m, text).1 is Ok,
    ensures
        relocations_sound(spec_assemble(m, text).0),
{
    let ls = lines(text);
    let m1 = scan_lines(m, ls).0;
    lemma_scan_lines_bytecode(m, ls);
    lemma_scan_lines_relocations(m, ls);
    assert(relocations_sound(m1));
    lemma_asm_lines_sound(m1, ls, ls.len() as int);
}

} // verus!
