//! The lines of a source, and what each of them says.
//!
//! A line is trimmed first. An empty line and a line that starts with `;`,
//! `//` or `#` is a comment; a line that starts with `.` is a directive; a
//! line that ends with `:` defines a label; any other line is an
//! instruction: a mnemonic, then, behind the first space, operands
//! separated by commas.

use crate::registers::{BReg, WReg};
use crate::source::err::{failure, Error, ErrorKind, ErrorType, Failure, LineNumber};
use crate::source::instruction::{operands, Operand, SourceOperand};
use crate::source::text::{is, str_eq};
use vstd::prelude::*;
use vstd::string::{StrSliceExecFns, StringSliceAdditionalSpecFns};
use vstd::utf8::encode_utf8;

verus! {

/// What a line of a source says.
#[derive(Debug, PartialEq)]
pub enum SourceLine {
    Label(String),
    Ins(String, Vec<SourceOperand>),
    Comment,
    DirInclude(String),
    DirString(Vec<u8>),
    DirByte(u8),
    /// A wide value: a number, or a label by its name.
    DirWide(Result<u16, String>),
    DirGlobal(String),
    DirReference(String),
    DirSeg(String),
    DirEntry,
}

/// What a line of a source says, as plain values.
pub enum Line {
    Label(Seq<char>),
    Ins(Seq<char>, Seq<Operand>),
    Comment,
    DirInclude(Seq<char>),
    DirString(Seq<u8>),
    DirByte(u8),
    DirWide(Result<u16, Seq<char>>),
    DirGlobal(Seq<char>),
    DirReference(Seq<char>),
    DirSeg(Seq<char>),
    DirEntry,
}

impl View for SourceLine {
    type V = Line;

    open spec fn view(&self) -> Line {
        match self {
            SourceLine::Label(s) => Line::Label(s@),
            SourceLine::Ins(s, ops) => Line::Ins(s@, operands(ops@)),
            SourceLine::Comment => Line::Comment,
            SourceLine::DirInclude(s) => Line::DirInclude(s@),
            SourceLine::DirString(b) => Line::DirString(b@),
            SourceLine::DirByte(b) => Line::DirByte(*b),
            SourceLine::DirWide(w) => Line::DirWide(
                match w {
                    Ok(n) => Ok(*n),
                    Err(l) => Err(l@),
                },
            ),
            SourceLine::DirGlobal(s) => Line::DirGlobal(s@),
            SourceLine::DirReference(s) => Line::DirReference(s@),
            SourceLine::DirSeg(s) => Line::DirSeg(s@),
            SourceLine::DirEntry => Line::DirEntry,
        }
    }
}

/// Whether a character is white space: the characters that Unicode gives
/// the property `White_Space`.
pub open spec fn is_space(c: char) -> bool {
    let u = c as u32;
    (0x09 <= u <= 0x0d) || u == 0x20 || u == 0x85 || u == 0xa0 || u == 0x1680 || (0x2000 <= u
        <= 0x200a) || u == 0x2028 || u == 0x2029 || u == 0x202f || u == 0x205f || u == 0x3000
}

/// The first place at or behind `i` and before `to` that holds no white
/// space, or `to`.
pub open spec fn skip_spaces(s: Seq<char>, i: int, to: int) -> int
    decreases to - i,
{
    if 0 <= i < to <= s.len() && is_space(s[i]) {
        skip_spaces(s, i + 1, to)
    } else {
        i
    }
}

/// The end of the text between `from` and `j` once the white space at its
/// end is dropped.
pub open spec fn drop_spaces(s: Seq<char>, from: int, j: int) -> int
    decreases j - from,
{
    if 0 <= from < j <= s.len() && is_space(s[j - 1]) {
        drop_spaces(s, from, j - 1)
    } else {
        j
    }
}

/// The first place at or behind `i` and before `to` that holds `c`, or
/// `to`.
pub open spec fn find_char(s: Seq<char>, c: char, i: int, to: int) -> int
    decreases to - i,
{
    if 0 <= i < to <= s.len() && s[i] != c {
        find_char(s, c, i + 1, to)
    } else {
        i
    }
}

/// The value of a decimal digit.
pub open spec fn digit(c: char) -> Option<nat> {
    let u = c as u32;
    if 0x30 <= u <= 0x39 {
        Some((u - 0x30) as nat)
    } else {
        None
    }
}

/// Whether the text holds decimal digits only.
pub open spec fn all_digits(t: Seq<char>) -> bool {
    forall|i: int| 0 <= i < t.len() ==> (#[trigger] digit(t[i])) is Some
}

/// The number that decimal digits stand for.
pub open spec fn digits_value(t: Seq<char>) -> nat
    decreases t.len(),
{
    if t.len() == 0 {
        0
    } else {
        digits_value(t.drop_last()) * 10 + match digit(t.last()) {
            Some(d) => d,
            None => 0,
        }
    }
}

/// An unsigned decimal number of at most `max`: digits, at least one,
/// behind at most one `+`.
pub open spec fn unsigned(t: Seq<char>, max: nat) -> Option<nat> {
    let d = if t.len() > 0 && t[0] == '+' {
        t.drop_first()
    } else {
        t
    };
    if d.len() > 0 && all_digits(d) && digits_value(d) <= max {
        Some(digits_value(d))
    } else {
        None
    }
}

/// A signed decimal number between `min` and `max`: digits, at least one,
/// behind at most one `+` or `-`.
pub open spec fn signed(t: Seq<char>, min: int, max: int) -> Option<int> {
    let has_sign = t.len() > 0 && (t[0] == '+' || t[0] == '-');
    let d = if has_sign {
        t.drop_first()
    } else {
        t
    };
    let v = if has_sign && t[0] == '-' {
        -(digits_value(d) as int)
    } else {
        digits_value(d) as int
    };
    if d.len() > 0 && all_digits(d) && min <= v <= max {
        Some(v)
    } else {
        None
    }
}

/// The value of a hexadecimal digit.
pub open spec fn hex_digit(b: u8) -> Option<u8> {
    if 0x30 <= b <= 0x39 {
        Some((b - 0x30) as u8)
    } else if 0x41 <= b <= 0x46 {
        Some((b - 0x41 + 10) as u8)
    } else if 0x61 <= b <= 0x66 {
        Some((b - 0x61 + 10) as u8)
    } else {
        None
    }
}

/// The byte that a run of bytes starts with, and the number of bytes that
/// stand for it: a byte for itself, or an escape `\r`, `\t`, `\n`, `\0`,
/// `\\`, `\'`, `\"`, or `\x` and two hexadecimal digits. There is none
/// where the run is empty or starts with anything else behind `\`.
pub open spec fn spec_parse_bytechar(s: Seq<u8>) -> Option<(u8, nat)> {
    if s.len() == 0 {
        None
    } else if s[0] != 0x5c {
        Some((s[0], 1))
    } else if s.len() < 2 {
        None
    } else if s[1] == 0x72 {
        Some((0x0d, 2))
    } else if s[1] == 0x74 {
        Some((0x09, 2))
    } else if s[1] == 0x6e {
        Some((0x0a, 2))
    } else if s[1] == 0x30 {
        Some((0x00, 2))
    } else if s[1] == 0x5c {
        Some((0x5c, 2))
    } else if s[1] == 0x27 {
        Some((0x27, 2))
    } else if s[1] == 0x22 {
        Some((0x22, 2))
    } else if s[1] == 0x78 && s.len() >= 4 {
        match (hex_digit(s[2]), hex_digit(s[3])) {
            (Some(h), Some(l)) => Some(((16 * h + l) as u8, 4)),
            _ => None,
        }
    } else {
        None
    }
}

/// The bytes that a run of bytes stands for once every escape in it is
/// replaced, if every escape in it is well formed.
pub open spec fn unescape(s: Seq<u8>) -> Option<Seq<u8>>
    decreases s.len(),
{
    if s.len() == 0 {
        Some(Seq::empty())
    } else {
        match spec_parse_bytechar(s) {
            None => None,
            Some((b, n)) => match unescape(s.skip(n as int)) {
                None => None,
                Some(rest) => Some(seq![b] + rest),
            },
        }
    }
}

/// A number as an operand, or, where the text is no number, the label of
/// that name. A text that ends in `b` is a byte, one that ends in `w` is
/// wide, each unsigned or signed; a text in single quotes is the byte its
/// first character or escape stands for; any other number has no mark.
pub open spec fn spec_parse_number(t: Seq<char>) -> Operand {
    if t.len() > 0 && t.last() == 'b' {
        match unsigned(t.drop_last(), 0xff) {
            Some(v) => Operand::Byte(v as u8),
            None => match signed(t.drop_last(), -0x80, 0x7f) {
                Some(v) => Operand::Byte((v % 0x100) as u8),
                None => Operand::Label(t),
            },
        }
    } else if t.len() > 0 && t.last() == 'w' {
        match unsigned(t.drop_last(), 0xffff) {
            Some(v) => Operand::Wide(v as u16),
            None => match signed(t.drop_last(), -0x8000, 0x7fff) {
                Some(v) => Operand::Wide((v % 0x1_0000) as u16),
                None => Operand::Label(t),
            },
        }
    } else if t.len() >= 2 && t[0] == '\'' && t.last() == '\'' {
        match spec_parse_bytechar(encode_utf8(t.subrange(1, t.len() - 1))) {
            Some((b, _)) => Operand::Byte(b),
            None => Operand::Label(t),
        }
    } else {
        match signed(t, -0x8000_0000, 0x7fff_ffff) {
            Some(v) => Operand::Number(v as i32),
            None => Operand::Label(t),
        }
    }
}

/// An operand as written: the name of a register, or a number or label.
pub open spec fn spec_parse_operand(t: Seq<char>) -> Operand {
    if t == "r0b"@ {
        Operand::ByteReg(BReg::R0b)
    } else if t == "r1l"@ {
        Operand::ByteReg(BReg::R1l)
    } else if t == "r1h"@ {
        Operand::ByteReg(BReg::R1h)
    } else if t == "r2l"@ {
        Operand::ByteReg(BReg::R2l)
    } else if t == "r2h"@ {
        Operand::ByteReg(BReg::R2h)
    } else if t == "r3l"@ {
        Operand::ByteReg(BReg::R3l)
    } else if t == "r3h"@ {
        Operand::ByteReg(BReg::R3h)
    } else if t == "r4l"@ {
        Operand::ByteReg(BReg::R4l)
    } else if t == "r4h"@ {
        Operand::ByteReg(BReg::R4h)
    } else if t == "r5l"@ {
        Operand::ByteReg(BReg::R5l)
    } else if t == "r5h"@ {
        Operand::ByteReg(BReg::R5h)
    } else if t == "r6b"@ {
        Operand::ByteReg(BReg::R6b)
    } else if t == "r7b"@ {
        Operand::ByteReg(BReg::R7b)
    } else if t == "r8b"@ {
        Operand::ByteReg(BReg::R8b)
    } else if t == "r9b"@ {
        Operand::ByteReg(BReg::R9b)
    } else if t == "r10b"@ {
        Operand::ByteReg(BReg::R10b)
    } else if t == "r0"@ {
        Operand::WideReg(WReg::R0)
    } else if t == "r1"@ {
        Operand::WideReg(WReg::R1)
    } else if t == "r2"@ {
        Operand::WideReg(WReg::R2)
    } else if t == "r3"@ {
        Operand::WideReg(WReg::R3)
    } else if t == "r4"@ {
        Operand::WideReg(WReg::R4)
    } else if t == "r5"@ {
        Operand::WideReg(WReg::R5)
    } else if t == "r6"@ {
        Operand::WideReg(WReg::R6)
    } else if t == "r7"@ {
        Operand::WideReg(WReg::R7)
    } else if t == "r8"@ {
        Operand::WideReg(WReg::R8)
    } else if t == "r9"@ {
        Operand::WideReg(WReg::R9)
    } else if t == "r10"@ {
        Operand::WideReg(WReg::R10)
    } else if t == "rs"@ {
        Operand::WideReg(WReg::Rs)
    } else if t == "rl"@ {
        Operand::WideReg(WReg::Rl)
    } else if t == "rb"@ {
        Operand::WideReg(WReg::Rb)
    } else if t == "rp"@ {
        Operand::WideReg(WReg::Rp)
    } else if t == "rh"@ {
        Operand::WideReg(WReg::Rh)
    } else {
        spec_parse_number(t)
    }
}

/// The operands written between `from` and `to`, separated by commas: each
/// is trimmed and read on its own. Between two commas, and in an empty
/// range, stands the label without a name.
pub open spec fn spec_operands(s: Seq<char>, from: int, to: int) -> Seq<Operand>
    decreases to - from,
{
    let j = find_char(s, ',', from, to);
    let a = skip_spaces(s, from, j);
    let piece = spec_parse_operand(s.subrange(a, drop_spaces(s, a, j)));
    if 0 <= from <= j < to <= s.len() {
        seq![piece] + spec_operands(s, j + 1, to)
    } else {
        seq![piece]
    }
}

/// What a directive says, from its name and its argument.
pub open spec fn spec_directive(name: Seq<char>, arg: Seq<char>) -> Result<Line, ErrorKind> {
    if name == "string"@ {
        match unescape(encode_utf8(arg)) {
            Some(bytes) => Ok(Line::DirString(bytes)),
            None => Err(ErrorKind::Other("invalid escape"@, arg)),
        }
    } else if name == "byte"@ {
        match spec_parse_number(arg) {
            Operand::Byte(n) => Ok(Line::DirByte(n)),
            Operand::Number(n) => Ok(Line::DirByte((n % 0x100) as u8)),
            _ => Err(ErrorKind::Other("invalid byte literal"@, arg)),
        }
    } else if name == "wide"@ || name == "word"@ {
        match spec_parse_number(arg) {
            Operand::Wide(n) => Ok(Line::DirWide(Ok(n))),
            Operand::Number(n) => Ok(Line::DirWide(Ok((n % 0x1_0000) as u16))),
            Operand::Label(l) => Ok(Line::DirWide(Err(l))),
            _ => Err(ErrorKind::Other("invalid wide literal"@, arg)),
        }
    } else if name == "include"@ {
        Ok(Line::DirInclude(arg))
    } else if name == "global"@ || name == "globl"@ {
        Ok(Line::DirGlobal(arg))
    } else if name == "ref"@ || name == "reference"@ {
        Ok(Line::DirReference(arg))
    } else if name == "seg"@ {
        Ok(Line::DirSeg(arg))
    } else if name == "entry"@ {
        Ok(Line::DirEntry)
    } else {
        Err(ErrorKind::UnknownDirective(name))
    }
}

/// What a line says.
pub open spec fn spec_parse_line(s: Seq<char>) -> Result<Line, ErrorKind> {
    let a = skip_spaces(s, 0, s.len() as int);
    let b = drop_spaces(s, a, s.len() as int);
    if a >= b {
        Ok(Line::Comment)
    } else if s[a] == ';' || s[a] == '#' || (b - a >= 2 && s[a] == '/' && s[a + 1] == '/') {
        Ok(Line::Comment)
    } else if s[a] == '.' {
        let i = find_char(s, ' ', a + 1, b);
        if i < b {
            spec_directive(s.subrange(a + 1, i), s.subrange(i + 1, b))
        } else {
            spec_directive(s.subrange(a + 1, b), Seq::empty())
        }
    } else if s[b - 1] == ':' {
        Ok(Line::Label(s.subrange(a, b - 1)))
    } else {
        let i = find_char(s, ' ', a, b);
        if i < b {
            Ok(Line::Ins(s.subrange(a, i), spec_operands(s, i, b)))
        } else {
            Ok(Line::Ins(s.subrange(a, b), Seq::empty()))
        }
    }
}

/// The characters of a string.
pub fn chars_of(s: &str) -> (v: Vec<char>)
    ensures
        v@ == s@,
{
    let n = s.unicode_len();
    let mut v: Vec<char> = Vec::new();
    let mut i: usize = 0;
    while i < n
        invariant
            i <= n,
            n == s@.len(),
            v@ == s@.subrange(0, i as int),
        decreases n - i,
    {
        v.push(s.get_char(i));
        i = i + 1;
        assert(v@ =~= s@.subrange(0, i as int));
    }
    assert(v@ =~= s@);
    v
}

/// Whether a character is white space.
pub fn is_whitespace(c: char) -> (r: bool)
    ensures
        r == is_space(c),
{
    let u = c as u32;
    (0x09 <= u && u <= 0x0d) || u == 0x20 || u == 0x85 || u == 0xa0 || u == 0x1680 || (0x2000
        <= u && u <= 0x200a) || u == 0x2028 || u == 0x2029 || u == 0x202f || u == 0x205f || u
        == 0x3000
}

fn skip(chars: &Vec<char>, from: usize, to: usize) -> (r: usize)
    requires
        from <= to <= chars@.len(),
    ensures
        r == skip_spaces(chars@, from as int, to as int),
        from <= r <= to,
{
    let mut i = from;
    while i < to && is_whitespace(chars[i])
        invariant
            from <= i <= to <= chars@.len(),
            skip_spaces(chars@, from as int, to as int) == skip_spaces(chars@, i as int, to as int),
        decreases to - i,
    {
        i = i + 1;
    }
    i
}

fn drop(chars: &Vec<char>, from: usize, to: usize) -> (r: usize)
    requires
        from <= to <= chars@.len(),
    ensures
        r == drop_spaces(chars@, from as int, to as int),
        from <= r <= to,
{
    let mut j = to;
    while j > from && is_whitespace(chars[j - 1])
        invariant
            from <= j <= to <= chars@.len(),
            drop_spaces(chars@, from as int, to as int) == drop_spaces(
                chars@,
                from as int,
                j as int,
            ),
        decreases j - from,
    {
        j = j - 1;
    }
    j
}

fn find(chars: &Vec<char>, c: char, from: usize, to: usize) -> (r: usize)
    requires
        from <= to <= chars@.len(),
    ensures
        r == find_char(chars@, c, from as int, to as int),
        from <= r <= to,
{
    let mut i = from;
    while i < to && chars[i] != c
        invariant
            from <= i <= to <= chars@.len(),
            find_char(chars@, c, from as int, to as int) == find_char(
                chars@,
                c,
                i as int,
                to as int,
            ),
        decreases to - i,
    {
        i = i + 1;
    }
    i
}

/// The value of digits does not shrink as more digits follow.
proof fn lemma_digits_grow(t: Seq<char>, k: int)
    requires
        0 <= k <= t.len(),
    ensures
        digits_value(t.subrange(0, k)) <= digits_value(t),
    decreases t.len() - k,
{
    if k < t.len() {
        lemma_digits_grow(t.drop_last(), k);
        assert(t.drop_last().subrange(0, k) =~= t.subrange(0, k));
    } else {
        assert(t.subrange(0, k) =~= t);
    }
}

/// The number that the digits between `from` and `to` stand for, if they
/// are digits, at least one, and the number is at most `limit`.
fn parse_digits(chars: &Vec<char>, from: usize, to: usize, limit: u64) -> (r: Option<u64>)
    requires
        from <= to <= chars@.len(),
        limit <= 0x8000_0000,
    ensures
        ({
            let d = chars@.subrange(from as int, to as int);
            r == if d.len() > 0 && all_digits(d) && digits_value(d) <= limit {
                Some(digits_value(d) as u64)
            } else {
                None::<u64>
            }
        }),
{
    let ghost d = chars@.subrange(from as int, to as int);
    if from == to {
        return None;
    }
    let mut acc: u64 = 0;
    let mut i = from;
    while i < to
        invariant
            from <= i <= to <= chars@.len(),
            d == chars@.subrange(from as int, to as int),
            limit <= 0x8000_0000,
            acc <= limit,
            acc == digits_value(d.subrange(0, i - from)),
            all_digits(d.subrange(0, i - from)),
        decreases to - i,
    {
        let u = chars[i] as u32;
        if u < 0x30 || u > 0x39 {
            assert(digit(d[i - from]) is None);
            return None;
        }
        let ghost before = d.subrange(0, i - from);
        let ghost now = d.subrange(0, i - from + 1);
        assert(now.drop_last() =~= before);
        assert(now.last() == d[i - from]);
        acc = acc * 10 + (u - 0x30) as u64;
        assert(acc == digits_value(now));
        assert(all_digits(now)) by {
            assert forall|k: int| 0 <= k < now.len() implies (#[trigger] digit(now[k])) is Some by {
                if k < before.len() {
                    assert(now[k] == before[k]);
                }
            }
        }
        if acc > limit {
            proof {
                lemma_digits_grow(d, i - from + 1);
            }
            return None;
        }
        i = i + 1;
    }
    assert(d.subrange(0, to - from) =~= d);
    Some(acc)
}

fn parse_unsigned(chars: &Vec<char>, from: usize, to: usize, max: u64) -> (r: Option<u64>)
    requires
        from <= to <= chars@.len(),
        max <= 0xffff,
    ensures
        match unsigned(chars@.subrange(from as int, to as int), max as nat) {
            Some(v) => r == Some(v as u64),
            None => r is None,
        },
{
    let ghost t = chars@.subrange(from as int, to as int);
    if from < to && chars[from] == '+' {
        assert(t.drop_first() =~= chars@.subrange(from + 1, to as int));
        parse_digits(chars, from + 1, to, max)
    } else {
        parse_digits(chars, from, to, max)
    }
}

fn parse_signed(chars: &Vec<char>, from: usize, to: usize, min: i64, max: i64) -> (r: Option<i64>)
    requires
        from <= to <= chars@.len(),
        -0x8000_0000 <= min <= 0,
        0 <= max <= 0x7fff_ffff,
        min == -max - 1,
    ensures
        match signed(chars@.subrange(from as int, to as int), min as int, max as int) {
            Some(v) => r == Some(v as i64),
            None => r is None,
        },
{
    let ghost t = chars@.subrange(from as int, to as int);
    if from < to && chars[from] == '-' {
        assert(t.drop_first() =~= chars@.subrange(from + 1, to as int));
        match parse_digits(chars, from + 1, to, (max + 1) as u64) {
            Some(v) => Some(-(v as i64)),
            None => None,
        }
    } else if from < to && chars[from] == '+' {
        assert(t.drop_first() =~= chars@.subrange(from + 1, to as int));
        match parse_digits(chars, from + 1, to, max as u64) {
            Some(v) => Some(v as i64),
            None => None,
        }
    } else {
        match parse_digits(chars, from, to, max as u64) {
            Some(v) => Some(v as i64),
            None => None,
        }
    }
}

fn hex_value(b: u8) -> (r: Option<u8>)
    ensures
        r == hex_digit(b),
{
    if 0x30 <= b && b <= 0x39 {
        Some(b - 0x30)
    } else if 0x41 <= b && b <= 0x46 {
        Some(b - 0x41 + 10)
    } else if 0x61 <= b && b <= 0x66 {
        Some(b - 0x61 + 10)
    } else {
        None
    }
}

/// The byte that the bytes from `at` on start with, and the number of bytes
/// that stand for it.
fn bytechar_at(s: &[u8], at: usize) -> (r: Option<(u8, usize)>)
    requires
        at <= s@.len(),
    ensures
        match spec_parse_bytechar(s@.skip(at as int)) {
            Some((b, n)) => r == Some((b, n as usize)) && at + n <= s@.len(),
            None => r is None,
        },
{
    let len = s.len();
    let ghost t = s@.skip(at as int);
    if at >= len {
        return None;
    }
    assert(t[0] == s@[at as int]);
    let c = s[at];
    if c != 0x5c {
        return Some((c, 1));
    }
    if len - at < 2 {
        return None;
    }
    assert(t[1] == s@[at + 1]);
    let e = s[at + 1];
    if e == 0x72 {
        Some((0x0d, 2))
    } else if e == 0x74 {
        Some((0x09, 2))
    } else if e == 0x6e {
        Some((0x0a, 2))
    } else if e == 0x30 {
        Some((0x00, 2))
    } else if e == 0x5c {
        Some((0x5c, 2))
    } else if e == 0x27 {
        Some((0x27, 2))
    } else if e == 0x22 {
        Some((0x22, 2))
    } else if e == 0x78 && len - at >= 4 {
        assert(t[2] == s@[at + 2]);
        assert(t[3] == s@[at + 3]);
        match (hex_value(s[at + 2]), hex_value(s[at + 3])) {
            (Some(h), Some(l)) => Some((16 * h + l, 4)),
            _ => None,
        }
    } else {
        None
    }
}

/// The byte that a run of bytes starts with, and the number of bytes that
/// stand for it.
pub fn parse_bytechar(s: &[u8]) -> (r: Option<(u8, usize)>)
    ensures
        match spec_parse_bytechar(s@) {
            Some((b, n)) => r == Some((b, n as usize)) && n <= s@.len(),
            None => r is None,
        },
{
    assert(s@.skip(0) =~= s@);
    bytechar_at(s, 0)
}

/// Replaces every escape in a run of bytes.
pub fn unescape_bytes(s: &[u8]) -> (r: Option<Vec<u8>>)
    ensures
        match unescape(s@) {
            Some(bytes) => r matches Some(v) && v@ == bytes,
            None => r is None,
        },
{
    let mut out: Vec<u8> = Vec::new();
    let mut i: usize = 0;
    let len = s.len();
    assert(s@.skip(0) =~= s@);
    while i < len
        invariant
            i <= len,
            len == s@.len(),
            unescape(s@) == match unescape(s@.skip(i as int)) {
                Some(rest) => Some(out@ + rest),
                None => None::<Seq<u8>>,
            },
        decreases len - i,
    {
        let ghost t = s@.skip(i as int);
        match bytechar_at(s, i) {
            None => {
                return None;
            },
            Some((b, n)) => {
                assert(t.skip(n as int) =~= s@.skip(i + n));
                let ghost before = out@;
                out.push(b);
                assert(n > 0);
                i = i + n;
                assert forall|rest: Seq<u8>| before + (seq![b] + rest) == #[trigger] (out@ + rest) by {
                    assert(before + (seq![b] + rest) =~= out@ + rest);
                }
            },
        }
    }
    assert(out@ + Seq::<u8>::empty() =~= out@);
    Some(out)
}

/// Reads a number as an operand; a text that is no number is the label of
/// that name.
pub fn parse_number(arg: &str) -> (r: SourceOperand)
    ensures
        r@ == spec_parse_number(arg@),
{
    let chars = chars_of(arg);
    let n = chars.len();
    let ghost t = chars@;
    if n > 0 && chars[n - 1] == 'b' {
        assert(t.drop_last() =~= t.subrange(0, n - 1));
        if let Some(v) = parse_unsigned(&chars, 0, n - 1, 0xff) {
            return SourceOperand::Byte(v as u8);
        }
        if let Some(v) = parse_signed(&chars, 0, n - 1, -0x80, 0x7f) {
            return SourceOperand::Byte(
                if v < 0 {
                    (v + 0x100) as u8
                } else {
                    v as u8
                },
            );
        }
        SourceOperand::Label(arg.to_owned())
    } else if n > 0 && chars[n - 1] == 'w' {
        assert(t.drop_last() =~= t.subrange(0, n - 1));
        if let Some(v) = parse_unsigned(&chars, 0, n - 1, 0xffff) {
            return SourceOperand::Wide(v as u16);
        }
        if let Some(v) = parse_signed(&chars, 0, n - 1, -0x8000, 0x7fff) {
            return SourceOperand::Wide(
                if v < 0 {
                    (v + 0x1_0000) as u16
                } else {
                    v as u16
                },
            );
        }
        SourceOperand::Label(arg.to_owned())
    } else if n >= 2 && chars[0] == '\'' && chars[n - 1] == '\'' {
        let inner = arg.substring_char(1, n - 1);
        match parse_bytechar(inner.as_bytes()) {
            Some((b, _)) => SourceOperand::Byte(b),
            None => SourceOperand::Label(arg.to_owned()),
        }
    } else {
        assert(t.subrange(0, n as int) =~= t);
        match parse_signed(&chars, 0, n, -0x8000_0000, 0x7fff_ffff) {
            Some(v) => SourceOperand::Number(v as i32),
            None => SourceOperand::Label(arg.to_owned()),
        }
    }
}

/// Reads an operand: the name of a register, or a number or label.
pub fn parse_operand(arg: &str) -> (r: SourceOperand)
    ensures
        r@ == spec_parse_operand(arg@),
{
    if str_eq(arg, "r0b") {
        SourceOperand::ByteReg(BReg::R0b)
    } else if str_eq(arg, "r1l") {
        SourceOperand::ByteReg(BReg::R1l)
    } else if str_eq(arg, "r1h") {
        SourceOperand::ByteReg(BReg::R1h)
    } else if str_eq(arg, "r2l") {
        SourceOperand::ByteReg(BReg::R2l)
    } else if str_eq(arg, "r2h") {
        SourceOperand::ByteReg(BReg::R2h)
    } else if str_eq(arg, "r3l") {
        SourceOperand::ByteReg(BReg::R3l)
    } else if str_eq(arg, "r3h") {
        SourceOperand::ByteReg(BReg::R3h)
    } else if str_eq(arg, "r4l") {
        SourceOperand::ByteReg(BReg::R4l)
    } else if str_eq(arg, "r4h") {
        SourceOperand::ByteReg(BReg::R4h)
    } else if str_eq(arg, "r5l") {
        SourceOperand::ByteReg(BReg::R5l)
    } else if str_eq(arg, "r5h") {
        SourceOperand::ByteReg(BReg::R5h)
    } else if str_eq(arg, "r6b") {
        SourceOperand::ByteReg(BReg::R6b)
    } else if str_eq(arg, "r7b") {
        SourceOperand::ByteReg(BReg::R7b)
    } else if str_eq(arg, "r8b") {
        SourceOperand::ByteReg(BReg::R8b)
    } else if str_eq(arg, "r9b") {
        SourceOperand::ByteReg(BReg::R9b)
    } else if str_eq(arg, "r10b") {
        SourceOperand::ByteReg(BReg::R10b)
    } else if str_eq(arg, "r0") {
        SourceOperand::WideReg(WReg::R0)
    } else if str_eq(arg, "r1") {
        SourceOperand::WideReg(WReg::R1)
    } else if str_eq(arg, "r2") {
        SourceOperand::WideReg(WReg::R2)
    } else if str_eq(arg, "r3") {
        SourceOperand::WideReg(WReg::R3)
    } else if str_eq(arg, "r4") {
        SourceOperand::WideReg(WReg::R4)
    } else if str_eq(arg, "r5") {
        SourceOperand::WideReg(WReg::R5)
    } else if str_eq(arg, "r6") {
        SourceOperand::WideReg(WReg::R6)
    } else if str_eq(arg, "r7") {
        SourceOperand::WideReg(WReg::R7)
    } else if str_eq(arg, "r8") {
        SourceOperand::WideReg(WReg::R8)
    } else if str_eq(arg, "r9") {
        SourceOperand::WideReg(WReg::R9)
    } else if str_eq(arg, "r10") {
        SourceOperand::WideReg(WReg::R10)
    } else if str_eq(arg, "rs") {
        SourceOperand::WideReg(WReg::Rs)
    } else if str_eq(arg, "rl") {
        SourceOperand::WideReg(WReg::Rl)
    } else if str_eq(arg, "rb") {
        SourceOperand::WideReg(WReg::Rb)
    } else if str_eq(arg, "rp") {
        SourceOperand::WideReg(WReg::Rp)
    } else if str_eq(arg, "rh") {
        SourceOperand::WideReg(WReg::Rh)
    } else {
        parse_number(arg)
    }
}

/// Reads the operands written between `from` and `to`.
fn parse_operands(line: &str, chars: &Vec<char>, from: usize, to: usize) -> (r: Vec<SourceOperand>)
    requires
        chars@ == line@,
        from <= to <= chars@.len(),
    ensures
        operands(r@) == spec_operands(line@, from as int, to as int),
{
    let mut out: Vec<SourceOperand> = Vec::new();
    let mut at = from;
    assert(operands(out@) =~= Seq::<Operand>::empty());
    assert(Seq::<Operand>::empty() + spec_operands(line@, from as int, to as int)
        =~= spec_operands(line@, from as int, to as int));
    loop
        invariant_except_break
            from <= at <= to <= chars@.len(),
            chars@ == line@,
            spec_operands(line@, from as int, to as int) == operands(out@) + spec_operands(
                line@,
                at as int,
                to as int,
            ),
        ensures
            operands(out@) == spec_operands(line@, from as int, to as int),
        decreases to - at,
    {
        let j = find(chars, ',', at, to);
        let a = skip(chars, at, j);
        let e = drop(chars, a, j);
        let piece = parse_operand(line.substring_char(a, e));
        let ghost before = operands(out@);
        let ghost rest = spec_operands(line@, at as int, to as int);
        out.push(piece);
        assert(operands(out@) =~= before + seq![piece@]);
        if j < to {
            assert(rest == seq![piece@] + spec_operands(line@, j + 1, to as int));
            assert(before + rest =~= operands(out@) + spec_operands(line@, j + 1, to as int));
            at = j + 1;
        } else {
            assert(rest == seq![piece@]);
            break ;
        }
    }
    out
}

/// Reads a directive from its name and its argument.
fn parse_directive(name: &str, arg: &str) -> (r: Result<SourceLine, ErrorType>)
    ensures
        match spec_directive(name@, arg@) {
            Ok(l) => r matches Ok(v) && v@ == l,
            Err(k) => r matches Err(e) && e@ == k,
        },
{
    if str_eq(name, "string") {
        match unescape_bytes(arg.as_bytes()) {
            Some(bytes) => Ok(SourceLine::DirString(bytes)),
            None => Err(ErrorType::Other("invalid escape", arg.to_owned())),
        }
    } else if str_eq(name, "byte") {
        match parse_number(arg) {
            SourceOperand::Byte(n) => Ok(SourceLine::DirByte(n)),
            SourceOperand::Number(n) => Ok(
                SourceLine::DirByte(crate::source::instruction::low_bits(n, 256) as u8),
            ),
            _ => Err(ErrorType::Other("invalid byte literal", arg.to_owned())),
        }
    } else if str_eq(name, "wide") || str_eq(name, "word") {
        match parse_number(arg) {
            SourceOperand::Wide(n) => Ok(SourceLine::DirWide(Ok(n))),
            SourceOperand::Number(n) => Ok(
                SourceLine::DirWide(
                    Ok(crate::source::instruction::low_bits(n, 0x1_0000) as u16),
                ),
            ),
            SourceOperand::Label(l) => Ok(SourceLine::DirWide(Err(l))),
            _ => Err(ErrorType::Other("invalid wide literal", arg.to_owned())),
        }
    } else if str_eq(name, "include") {
        Ok(SourceLine::DirInclude(arg.to_owned()))
    } else if str_eq(name, "global") || str_eq(name, "globl") {
        Ok(SourceLine::DirGlobal(arg.to_owned()))
    } else if str_eq(name, "ref") || str_eq(name, "reference") {
        Ok(SourceLine::DirReference(arg.to_owned()))
    } else if str_eq(name, "seg") {
        Ok(SourceLine::DirSeg(arg.to_owned()))
    } else if str_eq(name, "entry") {
        Ok(SourceLine::DirEntry)
    } else {
        Err(ErrorType::UnknownDirective(name.to_owned()))
    }
}

/// Reads one line.
pub fn parse_text(line: &str) -> (r: Result<SourceLine, ErrorType>)
    ensures
        match spec_parse_line(line@) {
            Ok(l) => r matches Ok(v) && v@ == l,
            Err(k) => r matches Err(e) && e@ == k,
        },
{
    let chars = chars_of(line);
    let n = chars.len();
    let a = skip(&chars, 0, n);
    let b = drop(&chars, a, n);
    if a >= b {
        return Ok(SourceLine::Comment);
    }
    let first = chars[a];
    if first == ';' || first == '#' || (b - a >= 2 && first == '/' && chars[a + 1] == '/') {
        return Ok(SourceLine::Comment);
    }
    if first == '.' {
        let i = find(&chars, ' ', a + 1, b);
        if i < b {
            parse_directive(line.substring_char(a + 1, i), line.substring_char(i + 1, b))
        } else {
            let empty = line.substring_char(b, b);
            assert(empty@ =~= Seq::<char>::empty());
            parse_directive(line.substring_char(a + 1, b), empty)
        }
    } else if chars[b - 1] == ':' {
        Ok(SourceLine::Label(line.substring_char(a, b - 1).to_owned()))
    } else {
        let i = find(&chars, ' ', a, b);
        if i < b {
            let ops = parse_operands(line, &chars, i, b);
            Ok(SourceLine::Ins(line.substring_char(a, i).to_owned(), ops))
        } else {
            let ops: Vec<SourceOperand> = Vec::new();
            assert(operands(ops@) =~= Seq::<Operand>::empty());
            Ok(SourceLine::Ins(line.substring_char(a, b).to_owned(), ops))
        }
    }
}

/// The lines of one source, handed out one by one with their numbers.
#[derive(Debug)]
pub struct SourceLines {
    lines: Vec<String>,
    next: usize,
    ln: LineNumber,
    source: String,
}

/// The texts of a list of lines.
pub open spec fn texts(lines: Seq<String>) -> Seq<Seq<char>> {
    lines.map_values(|l: String| l@)
}

/// The number of the line behind line `ln`. Line numbers stop at the
/// greatest one.
pub open spec fn next_number(ln: LineNumber) -> LineNumber {
    if ln < 0xffff_ffff {
        (ln + 1) as LineNumber
    } else {
        ln
    }
}

/// What a line says, or the failure at that line of that source.
pub open spec fn line_outcome(source: Seq<char>, ln: LineNumber, text: Seq<char>) -> Result<
    Line,
    Failure,
> {
    match spec_parse_line(text) {
        Ok(l) => Ok(l),
        Err(k) => Err(failure(source, ln, k)),
    }
}

impl SourceLines {
    /// The name of the source.
    pub closed spec fn name(&self) -> Seq<char> {
        self.source@
    }

    /// The number of the line that was handed out last, 0 before the first.
    pub closed spec fn line_number(&self) -> LineNumber {
        self.ln
    }

    /// The lines that are still to come.
    pub closed spec fn remaining(&self) -> Seq<Seq<char>> {
        texts(self.lines@).skip(self.next as int)
    }

    /// Whether the lines handed out do not outnumber the lines there are.
    #[verifier::type_invariant]
    spec fn in_range(&self) -> bool {
        self.next <= self.lines@.len()
    }

    /// The lines of a source without a name of its own: it is called
    /// `<input>`.
    pub fn from_reader(r: Vec<String>) -> (lines: SourceLines)
        ensures
            lines.name() == "<input>"@,
            lines.line_number() == 0,
            lines.remaining() == texts(r@),
    {
        assert(texts(r@).skip(0) =~= texts(r@));
        SourceLines { lines: r, next: 0, ln: 0, source: "<input>".to_owned() }
    }

    /// The lines of a source with a name.
    pub fn named(source: String, r: Vec<String>) -> (lines: SourceLines)
        ensures
            lines.name() == source@,
            lines.line_number() == 0,
            lines.remaining() == texts(r@),
    {
        assert(texts(r@).skip(0) =~= texts(r@));
        SourceLines { lines: r, next: 0, ln: 0, source }
    }

    /// The name of the source.
    pub fn source(&self) -> (s: &String)
        ensures
            s@ == self.name(),
    {
        &self.source
    }

    /// The number of the line that was handed out last, 0 before the first.
    pub fn number(&self) -> (ln: LineNumber)
        ensures
            ln == self.line_number(),
    {
        self.ln
    }

    /// Reads a line as the next line of this source: the line number goes
    /// up, and a failure is anchored at it.
    pub fn parse_line(&mut self, line: &str) -> (r: Result<SourceLine, Error>)
        ensures
            final(self).name() == old(self).name(),
            final(self).remaining() == old(self).remaining(),
            final(self).line_number() == next_number(old(self).line_number()),
            match line_outcome(old(self).name(), next_number(old(self).line_number()), line@) {
                Ok(l) => r matches Ok(v) && v@ == l,
                Err(f) => r matches Err(e) && e@ == f,
            },
    {
        proof {
            use_type_invariant(&*self);
        }
        if self.ln < 0xffff_ffff {
            self.ln = self.ln + 1;
        }
        match parse_text(line) {
            Ok(l) => Ok(l),
            Err(kind) => Err(Error::new(self.source.clone(), self.ln, kind)),
        }
    }

    /// Hands out the next line with its number, if there is one.
    pub fn next(&mut self) -> (r: Option<Result<(LineNumber, SourceLine), Error>>)
        ensures
            final(self).name() == old(self).name(),
            old(self).remaining().len() == 0 ==> r is None && final(self).remaining()
                == old(self).remaining() && final(self).line_number() == old(self).line_number(),
            old(self).remaining().len() > 0 ==> {
                &&& final(self).remaining() == old(self).remaining().drop_first()
                &&& final(self).line_number() == next_number(old(self).line_number())
                &&& match line_outcome(
                    old(self).name(),
                    next_number(old(self).line_number()),
                    old(self).remaining()[0],
                ) {
                    Ok(l) => r matches Some(Ok(v)) && v.0 == final(self).line_number() && v.1@ == l,
                    Err(f) => r matches Some(Err(e)) && e@ == f,
                }
            },
    {
        proof {
            use_type_invariant(&*self);
        }
        if self.next >= self.lines.len() {
            return None;
        }
        let ghost all = texts(self.lines@);
        assert(all.skip(self.next as int).drop_first() =~= all.skip(self.next + 1));
        assert(all.skip(self.next as int)[0] == self.lines@[self.next as int]@);
        if self.ln < 0xffff_ffff {
            self.ln = self.ln + 1;
        }
        let parsed = parse_text(self.lines[self.next].as_str());
        self.next = self.next + 1;
        match parsed {
            Ok(l) => Some(Ok((self.ln, l))),
            Err(kind) => Some(Err(Error::new(self.source.clone(), self.ln, kind))),
        }
    }
}

} // verus!
