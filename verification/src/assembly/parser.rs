//! The line-oriented assembly parser: a recursive-descent parser over
//! bytes, specified by spec functions that the executable parser is
//! proved to implement exactly.
//!
//! Lexical grammar (ASCII, case-insensitive keywords):
//! * number literal: optional sign, optional radix prefix `0b`/`0d`/`0x`
//!   (default decimal), then 1..N radix digits (N: 32 bin, 10 dec, 8 hex),
//! * identifier: `[A-Za-z_][A-Za-z0-9_]*`, optionally prefixed by a
//!   device namespace and `.`,
//! * label definition: identifier terminated by `:`,
//! * comment: `#` to end of line.

use vstd::prelude::*;
use crate::types::Word;
use crate::assembly::error::{ParserError, ParserErrorView};

verus! {

// ---------------------------------------------------------------------
// Byte classes.
// ---------------------------------------------------------------------

pub open spec fn is_space(c: u8) -> bool {
    c == 32 || c == 9
}

pub open spec fn is_dec_digit(c: u8) -> bool {
    48 <= c <= 57
}

pub open spec fn is_hex_digit(c: u8) -> bool {
    is_dec_digit(c) || (65 <= c <= 70) || (97 <= c <= 102)
}

pub open spec fn is_bin_digit(c: u8) -> bool {
    c == 48 || c == 49
}

pub open spec fn is_radix_digit(c: u8, radix: u32) -> bool {
    if radix == 2 {
        is_bin_digit(c)
    } else if radix == 16 {
        is_hex_digit(c)
    } else {
        is_dec_digit(c)
    }
}

pub open spec fn is_ident_start(c: u8) -> bool {
    (65 <= c <= 90) || (97 <= c <= 122) || c == 95
}

pub open spec fn is_ident_char(c: u8) -> bool {
    is_ident_start(c) || is_dec_digit(c)
}

/// The numeric value of a radix digit.
pub open spec fn spec_digit_value(c: u8) -> u32 {
    if 48 <= c <= 57 {
        (c - 48) as u32
    } else if 65 <= c <= 70 {
        (c - 55) as u32
    } else if 97 <= c <= 102 {
        (c - 87) as u32
    } else {
        0
    }
}

/// ASCII lower-casing of one byte.
pub open spec fn spec_lower(c: u8) -> u8 {
    if 65 <= c <= 90 {
        (c + 32) as u8
    } else {
        c
    }
}

// ---------------------------------------------------------------------
// Spec scanners over a line of bytes.
// ---------------------------------------------------------------------

/// The first position at or after `i` that does not hold a space or tab.
pub open spec fn spec_skip_spaces(s: Seq<u8>, i: int) -> int
    decreases s.len() - i,
{
    if 0 <= i < s.len() && is_space(s[i]) {
        spec_skip_spaces(s, i + 1)
    } else {
        i
    }
}

pub proof fn lemma_skip_spaces_bounds(s: Seq<u8>, i: int)
    requires
        0 <= i <= s.len(),
    ensures
        i <= spec_skip_spaces(s, i) <= s.len(),
    decreases s.len() - i,
{
    if 0 <= i < s.len() && is_space(s[i]) {
        lemma_skip_spaces_bounds(s, i + 1);
    }
}

/// The end of a run of at most `max` radix digits starting at `i`.
pub open spec fn spec_scan_number(s: Seq<u8>, i: int, radix: u32, max: int) -> int
    decreases max,
{
    if max > 0 && 0 <= i < s.len() && is_radix_digit(s[i], radix) {
        spec_scan_number(s, i + 1, radix, max - 1)
    } else {
        i
    }
}

/// The value of the digits `s[i..j)` read in the given radix.
pub open spec fn spec_number_value(s: Seq<u8>, i: int, j: int, radix: u32) -> int
    decreases j - i,
{
    if j <= i {
        0
    } else {
        spec_number_value(s, i, j - 1, radix) * radix + spec_digit_value(s[j - 1])
    }
}

/// The end of a run of identifier characters starting at `i`.
pub open spec fn spec_scan_ident_rest(s: Seq<u8>, i: int) -> int
    decreases s.len() - i,
{
    if 0 <= i < s.len() && is_ident_char(s[i]) {
        spec_scan_ident_rest(s, i + 1)
    } else {
        i
    }
}

pub proof fn lemma_scan_ident_rest_bounds(s: Seq<u8>, i: int)
    requires
        0 <= i <= s.len(),
    ensures
        i <= spec_scan_ident_rest(s, i) <= s.len(),
    decreases s.len() - i,
{
    if 0 <= i < s.len() && is_ident_char(s[i]) {
        lemma_scan_ident_rest_bounds(s, i + 1);
    }
}

/// Does the (lower-case) keyword stand at position `i`, compared without
/// regard to case?
pub open spec fn spec_match_kw(s: Seq<u8>, i: int, kw: Seq<u8>) -> bool {
    &&& 0 <= i
    &&& i + kw.len() <= s.len()
    &&& forall|k: int| 0 <= k < kw.len() ==> spec_lower(s[i + k]) == kw[k]
}

// ---------------------------------------------------------------------
// Executable scanners.
// ---------------------------------------------------------------------

fn is_space_x(c: u8) -> (r: bool)
    ensures
        r == is_space(c),
{
    c == 32 || c == 9
}

fn is_radix_digit_x(c: u8, radix: u32) -> (r: bool)
    ensures
        r == is_radix_digit(c, radix),
{
    if radix == 2 {
        c == 48 || c == 49
    } else if radix == 16 {
        (48 <= c && c <= 57) || (65 <= c && c <= 70) || (97 <= c && c <= 102)
    } else {
        48 <= c && c <= 57
    }
}

fn is_ident_char_x(c: u8) -> (r: bool)
    ensures
        r == is_ident_char(c),
{
    (65 <= c && c <= 90) || (97 <= c && c <= 122) || c == 95 || (48 <= c && c <= 57)
}

fn digit_value_x(c: u8) -> (r: u32)
    ensures
        r == spec_digit_value(c),
{
    if 48 <= c && c <= 57 {
        (c - 48) as u32
    } else if 65 <= c && c <= 70 {
        (c - 55) as u32
    } else if 97 <= c && c <= 102 {
        (c - 87) as u32
    } else {
        0
    }
}

fn lower_x(c: u8) -> (r: u8)
    ensures
        r == spec_lower(c),
{
    if 65 <= c && c <= 90 {
        c + 32
    } else {
        c
    }
}

fn skip_spaces_x(line: &[u8], i: usize) -> (r: usize)
    requires
        i <= line@.len(),
    ensures
        r == spec_skip_spaces(line@, i as int),
        i <= r <= line@.len(),
{
    let mut k = i;
    while k < line.len() && is_space_x(line[k])
        invariant
            i <= k <= line@.len(),
            spec_skip_spaces(line@, i as int) == spec_skip_spaces(line@, k as int),
        decreases line@.len() - k,
    {
        k = k + 1;
    }
    k
}

fn scan_number_x(line: &[u8], i: usize, radix: u32, max: usize) -> (r: usize)
    requires
        i <= line@.len(),
    ensures
        r == spec_scan_number(line@, i as int, radix, max as int),
        i <= r <= line@.len(),
        r - i <= max,
{
    let mut k = i;
    let mut left = max;
    while left > 0 && k < line.len() && is_radix_digit_x(line[k], radix)
        invariant
            i <= k <= line@.len(),
            k - i + left == max,
            spec_scan_number(line@, i as int, radix, max as int) == spec_scan_number(
                line@,
                k as int,
                radix,
                left as int,
            ),
        decreases left,
    {
        k = k + 1;
        left = left - 1;
    }
    k
}

fn scan_ident_rest_x(line: &[u8], i: usize) -> (r: usize)
    requires
        i <= line@.len(),
    ensures
        r == spec_scan_ident_rest(line@, i as int),
        i <= r <= line@.len(),
{
    let mut k = i;
    while k < line.len() && is_ident_char_x(line[k])
        invariant
            i <= k <= line@.len(),
            spec_scan_ident_rest(line@, i as int) == spec_scan_ident_rest(line@, k as int),
        decreases line@.len() - k,
    {
        k = k + 1;
    }
    k
}

/// The value of the scanned digits, if it fits a machine word.
fn number_from_x(line: &[u8], i: usize, j: usize, radix: u32) -> (r: Option<u32>)
    requires
        i <= j <= line@.len(),
        radix == 2 || radix == 10 || radix == 16,
    ensures
        match r {
            Some(v) => v as int == spec_number_value(line@, i as int, j as int, radix),
            None => spec_number_value(line@, i as int, j as int, radix) > u32::MAX,
        },
{
    let mut k = i;
    let mut acc: u64 = 0;
    let mut over = false;
    while k < j
        invariant
            i <= k <= j <= line@.len(),
            radix == 2 || radix == 10 || radix == 16,
            !over ==> acc as int == spec_number_value(line@, i as int, k as int, radix) && acc
                <= u32::MAX,
            over ==> spec_number_value(line@, i as int, k as int, radix) > u32::MAX,
        decreases j - k,
    {
        let d = digit_value_x(line[k]);
        if !over {
            proof {
                assert(acc * radix <= 0xFFFFFFFFu64 * 16) by (nonlinear_arith)
                    requires
                        acc <= 0xFFFFFFFFu64,
                        radix <= 16,
                ;
            }
            let next: u64 = acc * (radix as u64) + (d as u64);
            if next > 0xFFFFFFFF {
                over = true;
            } else {
                acc = next;
            }
        } else {
            proof {
                let prev = spec_number_value(line@, i as int, k as int, radix);
                assert(prev * radix >= prev * 2) by (nonlinear_arith)
                    requires
                        prev >= 0,
                        radix >= 2,
                ;
            }
        }
        k = k + 1;
    }
    if over {
        None
    } else {
        Some(acc as u32)
    }
}

} // verus!

verus! {

// ---------------------------------------------------------------------
// Token types and their views.
// ---------------------------------------------------------------------

// A word token wraps a single machine word:
#[derive(Copy, Clone, PartialEq, Eq, Structural, Debug)]
pub struct WordToken(pub Word);

/// The spec view of a label identifier: an optional device namespace
/// prefix and a name.
pub struct IdentView {
    pub prefix: Option<Seq<u8>>,
    pub name: Seq<u8>,
}

// A label identifier name occurs in a label definition token (followed
// by ':') and in all references to that definition. It is an
// alphanumeric identifier with length > 0 (underscores are allowed, the
// first char must not be a number). It might be prefixed by a device
// namespace, separated by a '.' character.
#[derive(Clone, PartialEq, Eq, Debug)]
pub struct LabelIdentifierToken {
    pub prefix: Option<Vec<u8>>,
    pub name: Vec<u8>,
}

impl View for LabelIdentifierToken {
    type V = IdentView;

    open spec fn view(&self) -> IdentView {
        IdentView {
            prefix: match &self.prefix {
                Some(p) => Some(p@),
                None => None,
            },
            name: self.name@,
        }
    }
}

pub enum AddressView {
    Address(WordToken),
    Label(IdentView),
}

// Every instruction that takes an address payload can also take a label
// in our assembler dialect.
#[derive(Clone, PartialEq, Eq, Debug)]
pub enum AddressToken {
    Address(WordToken),
    Label(LabelIdentifierToken),
}

impl View for AddressToken {
    type V = AddressView;

    open spec fn view(&self) -> AddressView {
        match self {
            AddressToken::Address(w) => AddressView::Address(*w),
            AddressToken::Label(l) => AddressView::Label(l@),
        }
    }
}

// A label definition token assigns an alphanumeric identifier to an
// address:
#[derive(Clone, PartialEq, Eq, Debug)]
pub struct LabelDefinitionToken(pub LabelIdentifierToken);

impl View for LabelDefinitionToken {
    type V = IdentView;

    open spec fn view(&self) -> IdentView {
        self.0@
    }
}

// A data token represents a word definition with optional repetition
// count:
#[derive(Copy, Clone, PartialEq, Eq, Structural, Debug)]
pub struct DataToken(pub WordToken, pub Option<WordToken>);

impl DataToken {
    /// The data word itself.
    pub open spec fn spec_word(self) -> Word {
        self.0.0
    }

    /// How often the data word is repeated.
    pub open spec fn spec_times(self) -> int {
        match self.1 {
            Some(t) => t.0.0 as int,
            None => 1,
        }
    }

    pub fn word(&self) -> (w: Word)
        ensures
            w == self.spec_word(),
    {
        self.0.0
    }

    pub fn times(&self) -> (t: usize)
        ensures
            t == self.spec_times(),
    {
        match self.1 {
            Some(t) => t.0.0 as usize,
            None => 1,
        }
    }
}

pub enum InstructionView {
    Add(AddressView),
    And(AddressView),
    Or(AddressView),
    Xor(AddressView),
    LoadValue(AddressView),
    StoreValue(AddressView),
    LoadConstant(WordToken),
    Jump(AddressView),
    JumpIfNegative(AddressView),
    Equals(AddressView),
    Halt,
    Not,
    RotateRight(WordToken),
    NoOperation,
}

// Our instruction tokens (this enum corresponds to types::Instruction):
#[derive(Clone, PartialEq, Eq, Debug)]
pub enum InstructionToken {
    Add(AddressToken),
    And(AddressToken),
    Or(AddressToken),
    Xor(AddressToken),
    LoadValue(AddressToken),
    StoreValue(AddressToken),
    LoadConstant(WordToken),
    Jump(AddressToken),
    JumpIfNegative(AddressToken),
    Equals(AddressToken),
    Halt,
    Not,
    RotateRight(WordToken),
    NoOperation,
}

impl View for InstructionToken {
    type V = InstructionView;

    open spec fn view(&self) -> InstructionView {
        match self {
            InstructionToken::Add(a) => InstructionView::Add(a@),
            InstructionToken::And(a) => InstructionView::And(a@),
            InstructionToken::Or(a) => InstructionView::Or(a@),
            InstructionToken::Xor(a) => InstructionView::Xor(a@),
            InstructionToken::LoadValue(a) => InstructionView::LoadValue(a@),
            InstructionToken::StoreValue(a) => InstructionView::StoreValue(a@),
            InstructionToken::LoadConstant(w) => InstructionView::LoadConstant(*w),
            InstructionToken::Jump(a) => InstructionView::Jump(a@),
            InstructionToken::JumpIfNegative(a) => InstructionView::JumpIfNegative(a@),
            InstructionToken::Equals(a) => InstructionView::Equals(a@),
            InstructionToken::Halt => InstructionView::Halt,
            InstructionToken::Not => InstructionView::Not,
            InstructionToken::RotateRight(w) => InstructionView::RotateRight(*w),
            InstructionToken::NoOperation => InstructionView::NoOperation,
        }
    }
}

pub enum ContentView {
    Data(DataToken),
    Instruction(InstructionView),
}

// A statement's content is either a data definition or an instruction:
#[derive(Clone, PartialEq, Eq, Debug)]
pub enum StatementContentToken {
    Data(DataToken),
    Instruction(InstructionToken),
}

impl View for StatementContentToken {
    type V = ContentView;

    open spec fn view(&self) -> ContentView {
        match self {
            StatementContentToken::Data(d) => ContentView::Data(*d),
            StatementContentToken::Instruction(i) => ContentView::Instruction(i@),
        }
    }
}

pub struct StatementView {
    pub line_number: nat,
    pub label_defs: Seq<IdentView>,
    pub content: Option<ContentView>,
}

// A statement token wraps a list of 0...n label definition tokens,
// optionally followed by either a data or an instruction token.
#[derive(Clone, PartialEq, Eq, Debug)]
pub struct StatementToken {
    pub line_number: usize,
    pub label_defs: Vec<LabelDefinitionToken>,
    pub content: Option<StatementContentToken>,
}

impl View for StatementToken {
    type V = StatementView;

    open spec fn view(&self) -> StatementView {
        StatementView {
            line_number: self.line_number as nat,
            label_defs: self.label_defs@.map(|k: int, l: LabelDefinitionToken| l@),
            content: match &self.content {
                Some(c) => Some(c@),
                None => None,
            },
        }
    }
}

// A program token holds a sequence of statement tokens:
#[derive(Clone, PartialEq, Eq, Debug)]
pub struct ProgramToken(pub Vec<StatementToken>);

impl View for ProgramToken {
    type V = Seq<StatementView>;

    open spec fn view(&self) -> Seq<StatementView> {
        self.0@.map(|k: int, st: StatementToken| st@)
    }
}

} // verus!

verus! {

// ---------------------------------------------------------------------
// Number literals.
// ---------------------------------------------------------------------

/// One radix alternative of a number literal: at least one digit, at
/// most `max`, whose value fits a machine word.
pub open spec fn spec_try_radix(s: Seq<u8>, i: int, radix: u32, max: int) -> Option<(u32, int)> {
    let j = spec_scan_number(s, i, radix, max);
    if j > i {
        let v = spec_number_value(s, i, j, radix);
        if v <= u32::MAX {
            Some((v as u32, j))
        } else {
            None
        }
    } else {
        None
    }
}

/// The radix alternatives of a number literal, in order: `0b` binary,
/// `0d` decimal, `0x` hexadecimal, and plain decimal.
pub open spec fn spec_word_alt(s: Seq<u8>, i: int) -> Option<(u32, int)> {
    let bin = if 0 <= i && i + 2 <= s.len() && s[i] == 48 && s[i + 1] == 98 {
        spec_try_radix(s, i + 2, 2, 32)
    } else {
        None
    };
    if bin matches Some(_) {
        bin
    } else {
        let dec = if 0 <= i && i + 2 <= s.len() && s[i] == 48 && s[i + 1] == 100 {
            spec_try_radix(s, i + 2, 10, 10)
        } else {
            None
        };
        if dec matches Some(_) {
            dec
        } else {
            let hex = if 0 <= i && i + 2 <= s.len() && s[i] == 48 && s[i + 1] == 120 {
                spec_try_radix(s, i + 2, 16, 8)
            } else {
                None
            };
            if hex matches Some(_) {
                hex
            } else {
                spec_try_radix(s, i, 10, 10)
            }
        }
    }
}

/// A whole number literal: an optional sign and a radix alternative.
/// A negative value is folded into its 32-bit two's-complement encoding;
/// a negative magnitude above 2^31 is rejected.
#[verifier::opaque]
pub open spec fn spec_parse_word(s: Seq<u8>, i: int) -> Option<(Word, int)> {
    let negative = 0 <= i < s.len() && s[i] == 45;
    let signed = 0 <= i < s.len() && (s[i] == 43 || s[i] == 45);
    let i1 = if signed {
        i + 1
    } else {
        i
    };
    match spec_word_alt(s, i1) {
        None => None,
        Some((num, j)) => {
            if negative && num > 0 {
                if num <= 0x80000000 {
                    Some((Word((0x100000000 - num) as u32), j))
                } else {
                    None
                }
            } else {
                Some((Word(num), j))
            }
        },
    }
}

fn try_radix_x(line: &[u8], i: usize, radix: u32, max: usize) -> (r: Option<(u32, usize)>)
    requires
        i <= line@.len(),
        radix == 2 || radix == 10 || radix == 16,
    ensures
        r matches Some(p) ==> spec_try_radix(line@, i as int, radix, max as int) == Some(
            (p.0, p.1 as int),
        ) && i < p.1 <= line@.len(),
        r matches None ==> spec_try_radix(line@, i as int, radix, max as int) matches None,
{
    let j = scan_number_x(line, i, radix, max);
    if j > i {
        match number_from_x(line, i, j, radix) {
            Some(v) => Some((v, j)),
            None => None,
        }
    } else {
        None
    }
}

fn word_alt_x(line: &[u8], i: usize) -> (r: Option<(u32, usize)>)
    requires
        i <= line@.len(),
    ensures
        r matches Some(p) ==> spec_word_alt(line@, i as int) == Some((p.0, p.1 as int)) && i < p.1
            <= line@.len(),
        r matches None ==> spec_word_alt(line@, i as int) matches None,
{
    if i < line.len() && i + 1 < line.len() && line[i] == 48 && line[i + 1] == 98 {
        match try_radix_x(line, i + 2, 2, 32) {
            Some(p) => {
                return Some(p);
            },
            None => {},
        }
    }
    if i < line.len() && i + 1 < line.len() && line[i] == 48 && line[i + 1] == 100 {
        match try_radix_x(line, i + 2, 10, 10) {
            Some(p) => {
                return Some(p);
            },
            None => {},
        }
    }
    if i < line.len() && i + 1 < line.len() && line[i] == 48 && line[i + 1] == 120 {
        match try_radix_x(line, i + 2, 16, 8) {
            Some(p) => {
                return Some(p);
            },
            None => {},
        }
    }
    try_radix_x(line, i, 10, 10)
}

fn parse_word_x(line: &[u8], i: usize) -> (r: Option<(Word, usize)>)
    requires
        i <= line@.len(),
    ensures
        r matches Some(p) ==> spec_parse_word(line@, i as int) == Some((p.0, p.1 as int)) && i
            < p.1 <= line@.len(),
        r matches None ==> spec_parse_word(line@, i as int) matches None,
{
    proof { reveal(spec_parse_word); }
    let negative = i < line.len() && line[i] == 45;
    let signed = i < line.len() && (line[i] == 43 || line[i] == 45);
    let i1 = if signed {
        i + 1
    } else {
        i
    };
    match word_alt_x(line, i1) {
        None => None,
        Some((num, j)) => {
            if negative && num > 0 {
                if num <= 0x80000000 {
                    Some((Word((0xFFFFFFFFu32 - num) + 1), j))
                } else {
                    None
                }
            } else {
                Some((Word(num), j))
            }
        },
    }
}

// ---------------------------------------------------------------------
// Identifiers, label references and label definitions.
// ---------------------------------------------------------------------

/// One identifier part: `[A-Za-z_][A-Za-z0-9_]*`.
pub open spec fn spec_parse_ident_part(s: Seq<u8>, i: int) -> Option<(Seq<u8>, int)> {
    if 0 <= i < s.len() && is_ident_start(s[i]) {
        let j = spec_scan_ident_rest(s, i + 1);
        Some((s.subrange(i, j), j))
    } else {
        None
    }
}

/// A label identifier: an optional `prefix.` and a name. When the dot
/// follows a first part, a second part must follow the dot.
#[verifier::opaque]
pub open spec fn spec_parse_label_identifier(s: Seq<u8>, i: int) -> Option<(IdentView, int)> {
    match spec_parse_ident_part(s, i) {
        None => None,
        Some((p1, j1)) => {
            if 0 <= j1 < s.len() && s[j1] == 46 {
                match spec_parse_ident_part(s, j1 + 1) {
                    None => None,
                    Some((p2, j2)) => Some((IdentView { prefix: Some(p1), name: p2 }, j2)),
                }
            } else {
                Some((IdentView { prefix: None, name: p1 }, j1))
            }
        },
    }
}

/// A label definition: a label identifier terminated by `:`.
#[verifier::opaque]
pub open spec fn spec_parse_label_definition(s: Seq<u8>, i: int) -> Option<(IdentView, int)> {
    match spec_parse_label_identifier(s, i) {
        None => None,
        Some((l, j)) => {
            if 0 <= j < s.len() && s[j] == 58 {
                Some((l, j + 1))
            } else {
                None
            }
        },
    }
}

/// An address operand: a number literal, or else a label reference.
#[verifier::opaque]
pub open spec fn spec_parse_address(s: Seq<u8>, i: int) -> Option<(AddressView, int)> {
    match spec_parse_word(s, i) {
        Some((w, j)) => Some((AddressView::Address(WordToken(w)), j)),
        None => match spec_parse_label_identifier(s, i) {
            Some((l, j)) => Some((AddressView::Label(l), j)),
            None => None,
        },
    }
}

fn parse_ident_part_x(line: &[u8], i: usize) -> (r: Option<(Vec<u8>, usize)>)
    requires
        i <= line@.len(),
    ensures
        r matches Some(p) ==> spec_parse_ident_part(line@, i as int) == Some(
            (p.0@, p.1 as int),
        ) && i < p.1 <= line@.len(),
        r matches None ==> spec_parse_ident_part(line@, i as int) matches None,
{
    if i < line.len() && is_ident_start_x(line[i]) {
        let j = scan_ident_rest_x(line, i + 1);
        let mut v: Vec<u8> = Vec::new();
        let mut k = i;
        while k < j
            invariant
                i <= k <= j <= line@.len(),
                v@ == line@.subrange(i as int, k as int),
            decreases j - k,
        {
            let ghost prev = v@;
            v.push(line[k]);
            k = k + 1;
            proof {
                assert(v@ =~= line@.subrange(i as int, k as int));
            }
        }
        Some((v, j))
    } else {
        None
    }
}

fn is_ident_start_x(c: u8) -> (r: bool)
    ensures
        r == is_ident_start(c),
{
    (65 <= c && c <= 90) || (97 <= c && c <= 122) || c == 95
}

fn parse_label_identifier_x(line: &[u8], i: usize) -> (r: Option<(LabelIdentifierToken, usize)>)
    requires
        i <= line@.len(),
    ensures
        r matches Some(p) ==> spec_parse_label_identifier(line@, i as int) == Some(
            (p.0@, p.1 as int),
        ) && i < p.1 <= line@.len(),
        r matches None ==> spec_parse_label_identifier(line@, i as int) matches None,
{
    proof { reveal(spec_parse_label_identifier); }
    match parse_ident_part_x(line, i) {
        None => None,
        Some((p1, j1)) => {
            if j1 < line.len() && line[j1] == 46 {
                match parse_ident_part_x(line, j1 + 1) {
                    None => None,
                    Some((p2, j2)) => Some(
                        (LabelIdentifierToken { prefix: Some(p1), name: p2 }, j2),
                    ),
                }
            } else {
                Some((LabelIdentifierToken { prefix: None, name: p1 }, j1))
            }
        },
    }
}

fn parse_label_definition_x(line: &[u8], i: usize) -> (r: Option<(LabelIdentifierToken, usize)>)
    requires
        i <= line@.len(),
    ensures
        r matches Some(p) ==> spec_parse_label_definition(line@, i as int) == Some(
            (p.0@, p.1 as int),
        ) && i < p.1 <= line@.len(),
        r matches None ==> spec_parse_label_definition(line@, i as int) matches None,
{
    proof { reveal(spec_parse_label_definition); }
    match parse_label_identifier_x(line, i) {
        None => None,
        Some((l, j)) => {
            if j < line.len() && line[j] == 58 {
                Some((l, j + 1))
            } else {
                None
            }
        },
    }
}

fn parse_address_x(line: &[u8], i: usize) -> (r: Option<(AddressToken, usize)>)
    requires
        i <= line@.len(),
    ensures
        r matches Some(p) ==> spec_parse_address(line@, i as int) == Some((p.0@, p.1 as int)) && i
            < p.1 <= line@.len(),
        r matches None ==> spec_parse_address(line@, i as int) matches None,
{
    proof { reveal(spec_parse_address); }
    match parse_word_x(line, i) {
        Some((w, j)) => Some((AddressToken::Address(WordToken(w)), j)),
        None => match parse_label_identifier_x(line, i) {
            Some((l, j)) => Some((AddressToken::Label(l), j)),
            None => None,
        },
    }
}

} // verus!

verus! {

// ---------------------------------------------------------------------
// Keywords.
// ---------------------------------------------------------------------

pub open spec fn kw_dat() -> Seq<u8> {
    seq![100u8, 97u8, 116u8]
}

pub open spec fn kw_times() -> Seq<u8> {
    seq![116u8, 105u8, 109u8, 101u8, 115u8]
}

pub open spec fn kw_add() -> Seq<u8> {
    seq![97u8, 100u8, 100u8]
}

pub open spec fn kw_and() -> Seq<u8> {
    seq![97u8, 110u8, 100u8]
}

pub open spec fn kw_or() -> Seq<u8> {
    seq![111u8, 114u8]
}

pub open spec fn kw_xor() -> Seq<u8> {
    seq![120u8, 111u8, 114u8]
}

pub open spec fn kw_ldv() -> Seq<u8> {
    seq![108u8, 100u8, 118u8]
}

pub open spec fn kw_stv() -> Seq<u8> {
    seq![115u8, 116u8, 118u8]
}

pub open spec fn kw_ldc() -> Seq<u8> {
    seq![108u8, 100u8, 99u8]
}

pub open spec fn kw_jmp() -> Seq<u8> {
    seq![106u8, 109u8, 112u8]
}

pub open spec fn kw_jmn() -> Seq<u8> {
    seq![106u8, 109u8, 110u8]
}

pub open spec fn kw_eql() -> Seq<u8> {
    seq![101u8, 113u8, 108u8]
}

pub open spec fn kw_hlt() -> Seq<u8> {
    seq![104u8, 108u8, 116u8]
}

pub open spec fn kw_not() -> Seq<u8> {
    seq![110u8, 111u8, 116u8]
}

pub open spec fn kw_rar() -> Seq<u8> {
    seq![114u8, 97u8, 114u8]
}

pub open spec fn kw_nop() -> Seq<u8> {
    seq![110u8, 111u8, 112u8]
}

fn match_kw2_x(line: &[u8], i: usize, a: u8, b: u8) -> (r: bool)
    requires
        i <= line@.len(),
    ensures
        r == spec_match_kw(line@, i as int, seq![a, b]),
        r ==> i + 2 <= line@.len(),
        line@.len() <= usize::MAX,
{
    i < line.len() && i + 1 < line.len() && lower_x(line[i]) == a && lower_x(line[i + 1]) == b
}

fn match_kw3_x(line: &[u8], i: usize, a: u8, b: u8, c: u8) -> (r: bool)
    requires
        i <= line@.len(),
    ensures
        r == spec_match_kw(line@, i as int, seq![a, b, c]),
        r ==> i + 3 <= line@.len(),
        line@.len() <= usize::MAX,
{
    i < line.len() && i + 1 < line.len() && i + 2 < line.len() && lower_x(line[i]) == a && lower_x(
        line[i + 1],
    ) == b && lower_x(line[i + 2]) == c
}

fn match_kw5_x(line: &[u8], i: usize, a: u8, b: u8, c: u8, d: u8, e: u8) -> (r: bool)
    requires
        i <= line@.len(),
    ensures
        r == spec_match_kw(line@, i as int, seq![a, b, c, d, e]),
        r ==> i + 5 <= line@.len(),
        line@.len() <= usize::MAX,
{
    i < line.len() && i + 1 < line.len() && i + 2 < line.len() && i + 3 < line.len() && i + 4
        < line.len() && lower_x(line[i]) == a && lower_x(line[i + 1]) == b && lower_x(line[i + 2])
        == c && lower_x(line[i + 3]) == d && lower_x(line[i + 4]) == e
}

// ---------------------------------------------------------------------
// Data and instruction tokens.
// ---------------------------------------------------------------------

/// A data definition: `DAT word`, optionally followed by `TIMES word`.
#[verifier::opaque]
pub open spec fn spec_parse_data(s: Seq<u8>, i: int) -> Option<(DataToken, int)> {
    if spec_match_kw(s, i, kw_dat()) {
        let i1 = i + 3;
        let i2 = spec_skip_spaces(s, i1);
        if i2 > i1 {
            match spec_parse_word(s, i2) {
                None => None,
                Some((w, j)) => {
                    let t1 = spec_skip_spaces(s, j);
                    if t1 > j && spec_match_kw(s, t1, kw_times()) {
                        let t2 = t1 + 5;
                        let t3 = spec_skip_spaces(s, t2);
                        if t3 > t2 {
                            match spec_parse_word(s, t3) {
                                Some((tw, j2)) => Some(
                                    (DataToken(WordToken(w), Some(WordToken(tw))), j2),
                                ),
                                None => Some((DataToken(WordToken(w), None), j)),
                            }
                        } else {
                            Some((DataToken(WordToken(w), None), j))
                        }
                    } else {
                        Some((DataToken(WordToken(w), None), j))
                    }
                },
            }
        } else {
            None
        }
    } else {
        None
    }
}

/// An instruction keyword followed by an address operand.
#[verifier::opaque]
pub open spec fn spec_instr_addr_arg(s: Seq<u8>, i: int, kw: Seq<u8>) -> Option<
    (AddressView, int),
> {
    if spec_match_kw(s, i, kw) {
        let i1 = i + kw.len();
        let i2 = spec_skip_spaces(s, i1);
        if i2 > i1 {
            spec_parse_address(s, i2)
        } else {
            None
        }
    } else {
        None
    }
}

/// An instruction keyword followed by a word operand.
#[verifier::opaque]
pub open spec fn spec_instr_word_arg(s: Seq<u8>, i: int, kw: Seq<u8>) -> Option<(Word, int)> {
    if spec_match_kw(s, i, kw) {
        let i1 = i + kw.len();
        let i2 = spec_skip_spaces(s, i1);
        if i2 > i1 {
            spec_parse_word(s, i2)
        } else {
            None
        }
    } else {
        None
    }
}

/// One instruction, tried in a fixed order of opcodes.
#[verifier::opaque]
pub open spec fn spec_parse_instruction(s: Seq<u8>, i: int) -> Option<(InstructionView, int)> {
    match spec_instr_addr_arg(s, i, kw_add()) {
        Some((a, j)) => Some((InstructionView::Add(a), j)),
        None => match spec_instr_addr_arg(s, i, kw_and()) {
            Some((a, j)) => Some((InstructionView::And(a), j)),
            None => match spec_instr_addr_arg(s, i, kw_or()) {
                Some((a, j)) => Some((InstructionView::Or(a), j)),
                None => match spec_instr_addr_arg(s, i, kw_xor()) {
                    Some((a, j)) => Some((InstructionView::Xor(a), j)),
                    None => match spec_instr_addr_arg(s, i, kw_ldv()) {
                        Some((a, j)) => Some((InstructionView::LoadValue(a), j)),
                        None => match spec_instr_addr_arg(s, i, kw_stv()) {
                            Some((a, j)) => Some((InstructionView::StoreValue(a), j)),
                            None => match spec_instr_word_arg(s, i, kw_ldc()) {
                                Some((w, j)) => Some(
                                    (InstructionView::LoadConstant(WordToken(w)), j),
                                ),
                                None => match spec_instr_addr_arg(s, i, kw_jmp()) {
                                    Some((a, j)) => Some((InstructionView::Jump(a), j)),
                                    None => match spec_instr_addr_arg(s, i, kw_jmn()) {
                                        Some((a, j)) => Some(
                                            (InstructionView::JumpIfNegative(a), j),
                                        ),
                                        None => match spec_instr_addr_arg(s, i, kw_eql()) {
                                            Some((a, j)) => Some((InstructionView::Equals(a), j)),
                                            None => {
                                                if spec_match_kw(s, i, kw_hlt()) {
                                                    Some((InstructionView::Halt, i + 3))
                                                } else if spec_match_kw(s, i, kw_not()) {
                                                    Some((InstructionView::Not, i + 3))
                                                } else {
                                                    match spec_instr_word_arg(s, i, kw_rar()) {
                                                        Some((w, j)) => Some(
                                                            (
                                                                InstructionView::RotateRight(
                                                                    WordToken(w),
                                                                ),
                                                                j,
                                                            ),
                                                        ),
                                                        None => {
                                                            if spec_match_kw(s, i, kw_nop()) {
                                                                Some(
                                                                    (
                                                                        InstructionView::NoOperation,
                                                                        i + 3,
                                                                    ),
                                                                )
                                                            } else {
                                                                None
                                                            }
                                                        },
                                                    }
                                                }
                                            },
                                        },
                                    },
                                },
                            },
                        },
                    },
                },
            },
        },
    }
}

/// A statement's content: a data definition, or else an instruction.
#[verifier::opaque]
pub open spec fn spec_parse_content(s: Seq<u8>, i: int) -> Option<(ContentView, int)> {
    match spec_parse_data(s, i) {
        Some((d, j)) => Some((ContentView::Data(d), j)),
        None => match spec_parse_instruction(s, i) {
            Some((ins, j)) => Some((ContentView::Instruction(ins), j)),
            None => None,
        },
    }
}

fn parse_data_x(line: &[u8], i: usize) -> (r: Option<(DataToken, usize)>)
    requires
        i <= line@.len(),
    ensures
        r matches Some(p) ==> spec_parse_data(line@, i as int) == Some((p.0, p.1 as int)) && i
            < p.1 <= line@.len(),
        r matches None ==> spec_parse_data(line@, i as int) matches None,
{
    proof { reveal(spec_parse_data); }
    if match_kw3_x(line, i, 100u8, 97u8, 116u8) {
        let i1 = i + 3;
        let i2 = skip_spaces_x(line, i1);
        if i2 > i1 {
            match parse_word_x(line, i2) {
                None => None,
                Some((w, j)) => {
                    let t1 = skip_spaces_x(line, j);
                    if t1 > j && match_kw5_x(line, t1, 116u8, 105u8, 109u8, 101u8, 115u8) {
                        let t2 = t1 + 5;
                        let t3 = skip_spaces_x(line, t2);
                        if t3 > t2 {
                            match parse_word_x(line, t3) {
                                Some((tw, j2)) => Some(
                                    (DataToken(WordToken(w), Some(WordToken(tw))), j2),
                                ),
                                None => Some((DataToken(WordToken(w), None), j)),
                            }
                        } else {
                            Some((DataToken(WordToken(w), None), j))
                        }
                    } else {
                        Some((DataToken(WordToken(w), None), j))
                    }
                },
            }
        } else {
            None
        }
    } else {
        None
    }
}

fn instr_addr_arg2_x(line: &[u8], i: usize, a: u8, b: u8) -> (r: Option<(AddressToken, usize)>)
    requires
        i <= line@.len(),
    ensures
        r matches Some(p) ==> spec_instr_addr_arg(line@, i as int, seq![a, b]) == Some(
            (p.0@, p.1 as int),
        ) && i < p.1 <= line@.len(),
        r matches None ==> spec_instr_addr_arg(line@, i as int, seq![a, b]) matches None,
{
    proof { reveal(spec_instr_addr_arg); }
    if match_kw2_x(line, i, a, b) {
        let i1 = i + 2;
        let i2 = skip_spaces_x(line, i1);
        if i2 > i1 {
            parse_address_x(line, i2)
        } else {
            None
        }
    } else {
        None
    }
}

fn instr_addr_arg3_x(line: &[u8], i: usize, a: u8, b: u8, c: u8) -> (r: Option<
    (AddressToken, usize),
>)
    requires
        i <= line@.len(),
    ensures
        r matches Some(p) ==> spec_instr_addr_arg(line@, i as int, seq![a, b, c]) == Some(
            (p.0@, p.1 as int),
        ) && i < p.1 <= line@.len(),
        r matches None ==> spec_instr_addr_arg(line@, i as int, seq![a, b, c]) matches None,
{
    proof { reveal(spec_instr_addr_arg); }
    if match_kw3_x(line, i, a, b, c) {
        let i1 = i + 3;
        let i2 = skip_spaces_x(line, i1);
        if i2 > i1 {
            parse_address_x(line, i2)
        } else {
            None
        }
    } else {
        None
    }
}

fn instr_word_arg3_x(line: &[u8], i: usize, a: u8, b: u8, c: u8) -> (r: Option<(Word, usize)>)
    requires
        i <= line@.len(),
    ensures
        r matches Some(p) ==> spec_instr_word_arg(line@, i as int, seq![a, b, c]) == Some(
            (p.0, p.1 as int),
        ) && i < p.1 <= line@.len(),
        r matches None ==> spec_instr_word_arg(line@, i as int, seq![a, b, c]) matches None,
{
    proof { reveal(spec_instr_word_arg); }
    if match_kw3_x(line, i, a, b, c) {
        let i1 = i + 3;
        let i2 = skip_spaces_x(line, i1);
        if i2 > i1 {
            parse_word_x(line, i2)
        } else {
            None
        }
    } else {
        None
    }
}

#[verifier::rlimit(100)]
fn parse_instruction_x(line: &[u8], i: usize) -> (r: Option<(InstructionToken, usize)>)
    requires
        i <= line@.len(),
    ensures
        r matches Some(p) ==> spec_parse_instruction(line@, i as int) == Some(
            (p.0@, p.1 as int),
        ) && i < p.1 <= line@.len(),
        r matches None ==> spec_parse_instruction(line@, i as int) matches None,
{
    proof { reveal(spec_parse_instruction); }
    match instr_addr_arg3_x(line, i, 97u8, 100u8, 100u8) {
        Some((a, j)) => {
            return Some((InstructionToken::Add(a), j));
        },
        None => {},
    }
    match instr_addr_arg3_x(line, i, 97u8, 110u8, 100u8) {
        Some((a, j)) => {
            return Some((InstructionToken::And(a), j));
        },
        None => {},
    }
    match instr_addr_arg2_x(line, i, 111u8, 114u8) {
        Some((a, j)) => {
            return Some((InstructionToken::Or(a), j));
        },
        None => {},
    }
    match instr_addr_arg3_x(line, i, 120u8, 111u8, 114u8) {
        Some((a, j)) => {
            return Some((InstructionToken::Xor(a), j));
        },
        None => {},
    }
    match instr_addr_arg3_x(line, i, 108u8, 100u8, 118u8) {
        Some((a, j)) => {
            return Some((InstructionToken::LoadValue(a), j));
        },
        None => {},
    }
    match instr_addr_arg3_x(line, i, 115u8, 116u8, 118u8) {
        Some((a, j)) => {
            return Some((InstructionToken::StoreValue(a), j));
        },
        None => {},
    }
    match instr_word_arg3_x(line, i, 108u8, 100u8, 99u8) {
        Some((w, j)) => {
            return Some((InstructionToken::LoadConstant(WordToken(w)), j));
        },
        None => {},
    }
    match instr_addr_arg3_x(line, i, 106u8, 109u8, 112u8) {
        Some((a, j)) => {
            return Some((InstructionToken::Jump(a), j));
        },
        None => {},
    }
    match instr_addr_arg3_x(line, i, 106u8, 109u8, 110u8) {
        Some((a, j)) => {
            return Some((InstructionToken::JumpIfNegative(a), j));
        },
        None => {},
    }
    match instr_addr_arg3_x(line, i, 101u8, 113u8, 108u8) {
        Some((a, j)) => {
            return Some((InstructionToken::Equals(a), j));
        },
        None => {},
    }
    if match_kw3_x(line, i, 104u8, 108u8, 116u8) {
        return Some((InstructionToken::Halt, i + 3));
    }
    if match_kw3_x(line, i, 110u8, 111u8, 116u8) {
        return Some((InstructionToken::Not, i + 3));
    }
    match instr_word_arg3_x(line, i, 114u8, 97u8, 114u8) {
        Some((w, j)) => {
            return Some((InstructionToken::RotateRight(WordToken(w)), j));
        },
        None => {},
    }
    if match_kw3_x(line, i, 110u8, 111u8, 112u8) {
        return Some((InstructionToken::NoOperation, i + 3));
    }
    None
}

fn parse_content_x(line: &[u8], i: usize) -> (r: Option<(StatementContentToken, usize)>)
    requires
        i <= line@.len(),
    ensures
        r matches Some(p) ==> spec_parse_content(line@, i as int) == Some((p.0@, p.1 as int)) && i
            < p.1 <= line@.len(),
        r matches None ==> spec_parse_content(line@, i as int) matches None,
{
    proof { reveal(spec_parse_content); }
    match parse_data_x(line, i) {
        Some((d, j)) => Some((StatementContentToken::Data(d), j)),
        None => match parse_instruction_x(line, i) {
            Some((ins, j)) => Some((StatementContentToken::Instruction(ins), j)),
            None => None,
        },
    }
}

} // verus!

verus! {

// ---------------------------------------------------------------------
// Statements.
// ---------------------------------------------------------------------

pub proof fn lemma_parse_ident_part_bounds(s: Seq<u8>, i: int)
    requires
        0 <= i <= s.len(),
    ensures
        spec_parse_ident_part(s, i) matches Some(p) ==> i < p.1 <= s.len(),
{
    if 0 <= i < s.len() && is_ident_start(s[i]) {
        lemma_scan_ident_rest_bounds(s, i + 1);
    }
}

pub proof fn lemma_parse_label_definition_bounds(s: Seq<u8>, i: int)
    requires
        0 <= i <= s.len(),
    ensures
        spec_parse_label_definition(s, i) matches Some(p) ==> i < p.1 <= s.len(),
{
    reveal(spec_parse_label_definition);
    reveal(spec_parse_label_identifier);
    lemma_parse_ident_part_bounds(s, i);
    match spec_parse_ident_part(s, i) {
        Some((p1, j1)) => {
            if 0 <= j1 < s.len() && s[j1] == 46 {
                lemma_parse_ident_part_bounds(s, j1 + 1);
            }
        },
        None => {},
    }
}

/// The leading label definitions of a statement, each one followed by
/// optional spaces.
pub open spec fn spec_parse_labels(s: Seq<u8>, i: int) -> (Seq<IdentView>, int)
    decreases s.len() - i,
    when 0 <= i <= s.len()
    via spec_parse_labels_dec
{
    match spec_parse_label_definition(s, i) {
        None => (Seq::empty(), i),
        Some((l, j)) => {
            let j2 = spec_skip_spaces(s, j);
            let (rest, k) = spec_parse_labels(s, j2);
            (seq![l].add(rest), k)
        },
    }
}

#[via_fn]
proof fn spec_parse_labels_dec(s: Seq<u8>, i: int) {
    lemma_parse_label_definition_bounds(s, i);
    match spec_parse_label_definition(s, i) {
        Some((l, j)) => {
            lemma_skip_spaces_bounds(s, j);
        },
        None => {},
    }
}

fn parse_labels_x(line: &[u8], i: usize) -> (r: (Vec<LabelDefinitionToken>, usize))
    requires
        i <= line@.len(),
    ensures
        r.0@.map(|q: int, l: LabelDefinitionToken| l@) == spec_parse_labels(line@, i as int).0,
        r.1 as int == spec_parse_labels(line@, i as int).1,
        i <= r.1 <= line@.len(),
{
    let mut acc: Vec<LabelDefinitionToken> = Vec::new();
    let mut k = i;
    let mut nxt = parse_label_definition_x(line, k);
    while nxt.is_some()
        invariant
            i <= k <= line@.len(),
            nxt matches Some(p) ==> spec_parse_label_definition(line@, k as int) == Some(
                (p.0@, p.1 as int),
            ) && k < p.1 <= line@.len(),
            nxt matches None ==> spec_parse_label_definition(line@, k as int) matches None,
            spec_parse_labels(line@, i as int).0 == acc@.map(
                |q: int, l: LabelDefinitionToken| l@,
            ).add(spec_parse_labels(line@, k as int).0),
            spec_parse_labels(line@, i as int).1 == spec_parse_labels(line@, k as int).1,
        decreases line@.len() - k,
    {
        let p = nxt.unwrap();
        let j2 = skip_spaces_x(line, p.1);
        let ghost prev_acc = acc@;
        let ghost prev_k = k as int;
        acc.push(LabelDefinitionToken(p.0));
        k = j2;
        nxt = parse_label_definition_x(line, k);
        proof {
            let f = |q: int, l: LabelDefinitionToken| l@;
            assert(acc@.map(f) =~= prev_acc.map(f).push(acc@.last()@));
            assert(spec_parse_labels(line@, prev_k).0 =~= seq![acc@.last()@].add(
                spec_parse_labels(line@, k as int).0,
            ));
            assert(prev_acc.map(f).push(acc@.last()@).add(spec_parse_labels(line@, k as int).0)
                =~= prev_acc.map(f).add(seq![acc@.last()@].add(
                spec_parse_labels(line@, k as int).0,
            )));
        }
    }
    (acc, k)
}

/// How many words a statement occupies in memory: a data definition
/// takes its repetition count, an instruction one word, an empty
/// statement none.
pub open spec fn spec_required_words(st: StatementView) -> int {
    match st.content {
        Some(ContentView::Data(d)) => d.spec_times(),
        Some(ContentView::Instruction(_)) => 1,
        None => 0,
    }
}

impl StatementToken {
    fn new(
        line_number: usize,
        label_defs: Vec<LabelDefinitionToken>,
        content: Option<StatementContentToken>,
    ) -> (st: StatementToken)
        ensures
            st == (StatementToken { line_number, label_defs, content }),
    {
        StatementToken { line_number, label_defs, content }
    }

    fn is_empty(&self) -> (r: bool)
        ensures
            r == (self.label_defs@.len() == 0 && self.content matches None),
    {
        self.label_defs.len() == 0 && self.content.is_none()
    }

    // Determine the number of words that is necessary to assemble the
    // content token:
    pub fn required_words(&self) -> (r: usize)
        ensures
            r == spec_required_words(self@),
    {
        match &self.content {
            Some(StatementContentToken::Data(d)) => d.times(),
            Some(StatementContentToken::Instruction(_)) => 1,
            None => 0,
        }
    }
}

/// One line, parsed in full: leading spaces, label definitions, an
/// optional content token, trailing spaces and an optional comment. The
/// parse fails exactly when something is left over; the error carries
/// the position of the leftover input.
#[verifier::opaque]
pub open spec fn spec_parse_line(s: Seq<u8>, line_number: nat) -> Result<
    Option<StatementView>,
    int,
> {
    let i0 = spec_skip_spaces(s, 0);
    let (labels, i1) = spec_parse_labels(s, i0);
    let (content, i2) = match spec_parse_content(s, i1) {
        Some((c, j)) => (Some(c), j),
        None => (None::<ContentView>, i1),
    };
    let i3 = spec_skip_spaces(s, i2);
    let i4 = if 0 <= i3 < s.len() && s[i3] == 35 {
        s.len() as int
    } else {
        i3
    };
    if i4 == s.len() {
        if labels.len() == 0 && (content matches None) {
            Ok(None)
        } else {
            Ok(Some(StatementView { line_number, label_defs: labels, content }))
        }
    } else {
        Err(i4)
    }
}

fn copy_range_x(line: &[u8], a: usize, b: usize) -> (v: Vec<u8>)
    requires
        a <= b <= line@.len(),
    ensures
        v@ == line@.subrange(a as int, b as int),
{
    let mut v: Vec<u8> = Vec::new();
    let mut k = a;
    while k < b
        invariant
            a <= k <= b <= line@.len(),
            v@ == line@.subrange(a as int, k as int),
        decreases b - k,
    {
        v.push(line[k]);
        k = k + 1;
        proof {
            assert(v@ =~= line@.subrange(a as int, k as int));
        }
    }
    v
}

// The input string must not contain a line ending!
fn statement_token(line_number: usize, line: &[u8]) -> (r: Result<
    Option<StatementToken>,
    ParserError,
>)
    ensures
        r matches Ok(Some(st)) ==> spec_parse_line(line@, line_number as nat) == Ok::<
            Option<StatementView>,
            int,
        >(Some(st@)) && st@.line_number == line_number,
        r matches Ok(None) ==> spec_parse_line(line@, line_number as nat) == Ok::<
            Option<StatementView>,
            int,
        >(None),
        r matches Err(e) ==> (spec_parse_line(line@, line_number as nat) matches Err(j) && e@ == (
        ParserErrorView {
            line_number: line_number as nat,
            token: Some(line@.subrange(j, line@.len() as int)),
        })),
{
    proof {
        reveal(spec_parse_line);
    }
    let i0 = skip_spaces_x(line, 0);
    let (labels, i1) = parse_labels_x(line, i0);
    let (content, i2) = match parse_content_x(line, i1) {
        Some((c, j)) => (Some(c), j),
        None => (None, i1),
    };
    let i3 = skip_spaces_x(line, i2);
    let i4 = if i3 < line.len() && line[i3] == 35 {
        line.len()
    } else {
        i3
    };
    if i4 == line.len() {
        if labels.len() == 0 && content.is_none() {
            Ok(None)
        } else {
            Ok(Some(StatementToken::new(line_number, labels, content)))
        }
    } else {
        Err(ParserError::new(line_number, Some(copy_range_x(line, i4, line.len()))))
    }
}

// ---------------------------------------------------------------------
// Programs.
// ---------------------------------------------------------------------

/// The position of the first line feed at or after `i`, or the length
/// of the input if there is none.
pub open spec fn spec_find_newline(s: Seq<u8>, i: int) -> int
    decreases s.len() - i,
{
    if !(0 <= i < s.len()) {
        s.len() as int
    } else if s[i] == 10 {
        i
    } else {
        spec_find_newline(s, i + 1)
    }
}

pub proof fn lemma_find_newline_bounds(s: Seq<u8>, i: int)
    requires
        0 <= i <= s.len(),
    ensures
        i <= spec_find_newline(s, i) <= s.len(),
    decreases s.len() - i,
{
    if 0 <= i < s.len() && s[i] != 10 {
        lemma_find_newline_bounds(s, i + 1);
    }
}

/// A line with one trailing carriage return removed.
pub open spec fn spec_strip_cr(l: Seq<u8>) -> Seq<u8> {
    if l.len() > 0 && l[l.len() - 1] == 13 {
        l.take(l.len() - 1)
    } else {
        l
    }
}

/// The lines of the input from position `i` on: pieces separated by
/// line feeds, each with one trailing carriage return removed, and no
/// final empty piece when the input ends with a line feed.
pub open spec fn spec_split_lines(s: Seq<u8>, i: int) -> Seq<Seq<u8>>
    decreases s.len() - i,
    when 0 <= i <= s.len()
    via spec_split_lines_dec
{
    if i >= s.len() {
        Seq::empty()
    } else {
        let k = spec_find_newline(s, i);
        if k < s.len() {
            seq![spec_strip_cr(s.subrange(i, k))].add(spec_split_lines(s, k + 1))
        } else {
            seq![spec_strip_cr(s.subrange(i, s.len() as int))]
        }
    }
}

#[via_fn]
proof fn spec_split_lines_dec(s: Seq<u8>, i: int) {
    if i < s.len() {
        lemma_find_newline_bounds(s, i);
    }
}

/// The statements of the given lines, from line `n` on; the first line
/// that does not parse gives the error, with the leftover input as the
/// token.
pub open spec fn spec_parse_lines(lines: Seq<Seq<u8>>, n: int) -> Result<
    Seq<StatementView>,
    ParserErrorView,
>
    decreases lines.len() - n,
{
    if !(0 <= n < lines.len()) {
        Ok(Seq::empty())
    } else {
        match spec_parse_line(lines[n], n as nat) {
            Err(j) => Err(
                ParserErrorView {
                    line_number: n as nat,
                    token: Some(lines[n].subrange(j, lines[n].len() as int)),
                },
            ),
            Ok(opt) => match spec_parse_lines(lines, n + 1) {
                Err(e) => Err(e),
                Ok(rest) => Ok(
                    match opt {
                        Some(st) => seq![st].add(rest),
                        None => rest,
                    },
                ),
            },
        }
    }
}

/// The whole program: the input split into lines, each line parsed as a
/// statement.
pub open spec fn spec_parse_program(s: Seq<u8>) -> Result<Seq<StatementView>, ParserErrorView> {
    spec_parse_lines(spec_split_lines(s, 0), 0)
}

fn find_newline_x(input: &[u8], i: usize) -> (r: usize)
    requires
        i <= input@.len(),
    ensures
        r as int == spec_find_newline(input@, i as int),
        i <= r <= input@.len(),
{
    let mut k = i;
    while k < input.len() && input[k] != 10
        invariant
            i <= k <= input@.len(),
            spec_find_newline(input@, i as int) == spec_find_newline(input@, k as int),
        decreases input@.len() - k,
    {
        k = k + 1;
    }
    k
}

// Expose a public interface for parsing a program token from bytes:
impl ProgramToken {
    // The input contains the statements, separated by line endings.
    #[verifier::rlimit(100)]
    pub fn parse(input: &[u8]) -> (r: Result<ProgramToken, ParserError>)
        ensures
            r matches Ok(p) ==> spec_parse_program(input@) == Ok::<
                Seq<StatementView>,
                ParserErrorView,
            >(p@),
            r matches Err(e) ==> spec_parse_program(input@) == Err::<
                Seq<StatementView>,
                ParserErrorView,
            >(e@),
    {
        let ghost lines = spec_split_lines(input@, 0);
        let mut statements: Vec<StatementToken> = Vec::new();
        let mut pos: usize = 0;
        let mut line_no: usize = 0;
        proof {
            match spec_parse_lines(lines, 0) {
                Ok(rest) => {
                    assert(statements@.map(|q: int, st: StatementToken| st@).add(rest) =~= rest);
                },
                Err(_) => {},
            }
        }
        while pos < input.len()
            invariant
                pos <= input@.len(),
                line_no <= pos,
                line_no <= lines.len(),
                lines == spec_split_lines(input@, 0),
                spec_split_lines(input@, pos as int) == lines.skip(line_no as int),
                match spec_parse_lines(lines, line_no as int) {
                    Ok(rest) => spec_parse_lines(lines, 0) == Ok::<
                        Seq<StatementView>,
                        ParserErrorView,
                    >(statements@.map(|q: int, st: StatementToken| st@).add(rest)),
                    Err(e) => spec_parse_lines(lines, 0) == Err::<
                        Seq<StatementView>,
                        ParserErrorView,
                    >(e),
                },
            decreases input@.len() - pos,
        {
            let ghost n = line_no as int;
            let k = find_newline_x(input, pos);
            let e = if k > pos && input[k - 1] == 13 {
                k - 1
            } else {
                k
            };
            let line: &[u8] = &input[pos..e];
            proof {
                // The current line is the head of the remaining lines.
                assert(lines.skip(n).len() > 0);
                assert(0 <= n < lines.len());
                assert(lines.skip(n)[0] == lines[n]);
                assert(line@ =~= spec_strip_cr(input@.subrange(pos as int, k as int)));
                assert(lines[n] == line@);
            }
            let ghost prev_statements = statements@;
            match statement_token(line_no, line) {
                Err(err) => {
                    return Err(err);
                },
                Ok(Some(st)) => {
                    statements.push(st);
                    proof {
                        let f = |q: int, st: StatementToken| st@;
                        assert(statements@.map(f) =~= prev_statements.map(f).push(st@));
                    }
                },
                Ok(None) => {},
            }
            proof {
                // The remaining lines after this one:
                assert(lines.skip(n).skip(1) =~= lines.skip(n + 1));
                if k < input@.len() {
                    assert(spec_split_lines(input@, pos as int).skip(1) =~= spec_split_lines(
                        input@,
                        k + 1,
                    ));
                } else {
                    assert(spec_split_lines(input@, pos as int).skip(1) =~= Seq::<Seq<u8>>::empty());
                    assert(spec_split_lines(input@, input@.len() as int) =~= Seq::<
                        Seq<u8>,
                    >::empty());
                }
                // Folding this line's statement into the parsed prefix:
                let f = |q: int, st: StatementToken| st@;
                match spec_parse_lines(lines, n + 1) {
                    Ok(rest) => {
                        match spec_parse_line(lines[n], n as nat) {
                            Ok(Some(stv)) => {
                                assert(statements@.map(f) =~= prev_statements.map(f).push(stv));
                                assert(prev_statements.map(f).push(stv).add(rest)
                                    =~= prev_statements.map(f).add(seq![stv].add(rest)));
                            },
                            _ => {},
                        }
                    },
                    Err(_) => {},
                }
            }
            line_no = line_no + 1;
            pos = if k < input.len() {
                k + 1
            } else {
                input.len()
            };
        }
        proof {
            assert(spec_split_lines(input@, pos as int) =~= Seq::<Seq<u8>>::empty());
            assert(lines.skip(line_no as int).len() == lines.len() - line_no);
            assert(spec_parse_lines(lines, line_no as int) == Ok::<
                Seq<StatementView>,
                ParserErrorView,
            >(Seq::empty()));
            assert(statements@.map(|q: int, st: StatementToken| st@).add(
                Seq::<StatementView>::empty(),
            ) =~= statements@.map(|q: int, st: StatementToken| st@));
        }
        Ok(ProgramToken(statements))
    }
}

} // verus!

verus! {

// ---------------------------------------------------------------------
// The numeric literal round trip.
// ---------------------------------------------------------------------

/// The canonical decimal digits of a value, most significant first.
pub open spec fn dec_digits(v: nat) -> Seq<u8>
    decreases v,
{
    if v < 10 {
        seq![(48 + v) as u8]
    } else {
        dec_digits(v / 10).push((48 + v % 10) as u8)
    }
}

/// The canonical decimal representation of an integer, with a minus
/// sign for negative values.
pub open spec fn dec_repr(n: int) -> Seq<u8> {
    if n < 0 {
        seq![45u8].add(dec_digits((-n) as nat))
    } else {
        dec_digits(n as nat)
    }
}

pub open spec fn pow10(k: nat) -> nat
    decreases k,
{
    if k == 0 {
        1
    } else {
        10 * pow10((k - 1) as nat)
    }
}

proof fn lemma_dec_digits_wf(v: nat)
    ensures
        dec_digits(v).len() >= 1,
        forall|k: int| 0 <= k < dec_digits(v).len() ==> is_dec_digit(#[trigger] dec_digits(v)[k]),
        v >= 1 ==> dec_digits(v)[0] != 48,
    decreases v,
{
    if v >= 10 {
        lemma_dec_digits_wf(v / 10);
    }
}

proof fn lemma_dec_digits_len(v: nat, k: nat)
    requires
        k >= 1,
        v < pow10(k),
    ensures
        dec_digits(v).len() <= k,
    decreases k,
{
    if v >= 10 {
        assert(v / 10 < pow10((k - 1) as nat)) by (nonlinear_arith)
            requires
                v < pow10(k),
                pow10(k) == 10 * pow10((k - 1) as nat),
                v >= 10,
        ;
        lemma_dec_digits_len(v / 10, (k - 1) as nat);
    }
}

proof fn lemma_pow10_ten()
    ensures
        pow10(10) == 10000000000,
{
    reveal_with_fuel(pow10, 11);
}

proof fn lemma_scan_all_digits(s: Seq<u8>, i: int, max: int)
    requires
        0 <= i <= s.len(),
        forall|k: int| i <= k < s.len() ==> is_dec_digit(#[trigger] s[k]),
        s.len() - i <= max,
    ensures
        spec_scan_number(s, i, 10, max) == s.len(),
    decreases s.len() - i,
{
    if i < s.len() {
        lemma_scan_all_digits(s, i + 1, max - 1);
    }
}

/// The value of digits copied into another sequence at an offset.
proof fn lemma_number_value_shift(s: Seq<u8>, d: Seq<u8>, off: int, j: int)
    requires
        0 <= j <= d.len(),
        0 <= off,
        off + d.len() <= s.len(),
        forall|k: int| 0 <= k < d.len() ==> s[off + k] == #[trigger] d[k],
    ensures
        spec_number_value(s, off, off + j, 10) == spec_number_value(d, 0, j, 10),
    decreases j,
{
    if j > 0 {
        lemma_number_value_shift(s, d, off, j - 1);
        assert(s[off + (j - 1)] == d[j - 1]);
    }
}

proof fn lemma_dec_digits_value(v: nat)
    ensures
        spec_number_value(dec_digits(v), 0, dec_digits(v).len() as int, 10) == v,
    decreases v,
{
    lemma_dec_digits_wf(v);
    if v < 10 {
        assert(spec_number_value(dec_digits(v), 0, 0, 10) == 0);
        assert(spec_number_value(dec_digits(v), 0, 1, 10) == spec_digit_value(
            dec_digits(v)[0],
        ));
    } else {
        lemma_dec_digits_value(v / 10);
        let d = dec_digits(v);
        let prior = dec_digits(v / 10);
        assert(d == prior.push((48 + v % 10) as u8));
        lemma_dec_digits_wf(v / 10);
        lemma_number_value_shift(d, prior, 0, prior.len() as int);
        assert(spec_number_value(d, 0, d.len() as int, 10) == spec_number_value(
            d,
            0,
            d.len() - 1,
            10,
        ) * 10 + spec_digit_value(d[d.len() - 1]));
    }
}

/// Numeric literal round trip: parsing the canonical decimal
/// representation of any integer in [-2^31, 2^31 - 1] consumes it fully
/// and yields the word whose two's-complement signed reading is that
/// integer.
pub proof fn lemma_numeric_literal(n: int)
    requires
        -0x80000000 <= n <= 0x7FFFFFFF,
    ensures
        spec_parse_word(dec_repr(n), 0) matches Some(p) && p.0.as_signed() == n && p.1 == dec_repr(
            n,
        ).len(),
{
    reveal(spec_parse_word);
    if n >= 0 {
        let v = n as nat;
        let s = dec_digits(v);
        lemma_dec_digits_wf(v);
        lemma_pow10_ten();
        lemma_dec_digits_len(v, 10);
        lemma_scan_all_digits(s, 0, 10);
        lemma_dec_digits_value(v);
        // No radix prefix can match: a one-digit literal is too short,
        // and a longer one starts with a non-zero digit.
        if s.len() >= 2 {
            assert(v >= 10) by {
                if v < 10 {
                    assert(s.len() == 1);
                }
            };
            assert(s[0] != 48);
        }
        assert(spec_try_radix(s, 0, 10, 10) == Some((v as u32, s.len() as int)));
    } else {
        let v = (-n) as nat;
        let d = dec_digits(v);
        let s = dec_repr(n);
        lemma_dec_digits_wf(v);
        lemma_pow10_ten();
        lemma_dec_digits_len(v, 10);
        assert(s.len() == 1 + d.len());
        assert(forall|k: int| 0 <= k < d.len() ==> s[1 + k] == #[trigger] d[k]);
        assert(forall|k: int| 1 <= k < s.len() ==> is_dec_digit(#[trigger] s[k]));
        lemma_scan_all_digits(s, 1, 10);
        lemma_number_value_shift(s, d, 1, d.len() as int);
        lemma_dec_digits_value(v);
        // The character after the sign is a non-zero digit, so no radix
        // prefix can match there.
        assert(s[1] == d[0] && d[0] != 48);
        assert(spec_try_radix(s, 1, 10, 10) == Some((v as u32, s.len() as int)));
        assert(spec_word_alt(s, 1) == Some((v as u32, s.len() as int)));
    }
}

} // verus!
