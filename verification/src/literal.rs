//! Reading the text of literals: decimal numbers with their units, and the
//! escapes of text.
use vstd::prelude::*;
use vstd::string::StringExecFns;

use crate::ast::str_equal;
use crate::error::{about, ErrorKind, ErrorView, ValkyrieError};
use crate::json::{execute_json, json_literal};
use crate::value::{ValkyrieValue, ValueView};

verus! {

/// The characters of a text, one by one.
pub fn characters(text: &str) -> (chars: Vec<char>)
    ensures
        chars@ == text@,
{
    let mut chars: Vec<char> = Vec::new();
    for c in it: text.chars()
        invariant
            it.seq() == text@,
            chars@ == it.seq().take(it.index() as int),
    {
        chars.push(c);
        assert(it.seq().take(it.index() + 1) =~= it.seq().take(it.index() as int).push(c));
    }
    assert(chars@ =~= text@);
    chars
}

// ---------------------------------------------------------------------------
// Numbers
// ---------------------------------------------------------------------------

/// The number a decimal digit stands for; nothing for any other character.
pub open spec fn digit_of(c: char) -> Option<int> {
    if c == '0' {
        Some(0)
    } else if c == '1' {
        Some(1)
    } else if c == '2' {
        Some(2)
    } else if c == '3' {
        Some(3)
    } else if c == '4' {
        Some(4)
    } else if c == '5' {
        Some(5)
    } else if c == '6' {
        Some(6)
    } else if c == '7' {
        Some(7)
    } else if c == '8' {
        Some(8)
    } else if c == '9' {
        Some(9)
    } else {
        None
    }
}

/// Whether a text is one decimal digit or more, and nothing else.
pub open spec fn is_digits(text: Seq<char>) -> bool {
    text.len() > 0 && forall|i: int| 0 <= i < text.len() ==> (#[trigger] digit_of(text[i])) is Some
}

/// The number that a run of decimal digits writes, the first digit counting
/// most.
pub open spec fn digits_value(text: Seq<char>) -> int
    decreases text.len(),
{
    if text.len() == 0 {
        0
    } else {
        digits_value(text.drop_last()) * 10 + match digit_of(text.last()) {
            Some(d) => d,
            None => 0,
        }
    }
}

/// The largest number a literal with the given unit may write: the largest of
/// the fixed-width integer kind that the unit names. A literal without a unit
/// is of the widest kind. Nothing for a unit that names no kind.
pub open spec fn unit_limit(unit: Option<Seq<char>>) -> Option<int> {
    match unit {
        None => Some(i128::MAX as int),
        Some(name) => if name == "i8"@ {
            Some(i8::MAX as int)
        } else if name == "i16"@ {
            Some(i16::MAX as int)
        } else if name == "i32"@ {
            Some(i32::MAX as int)
        } else if name == "i64"@ {
            Some(i64::MAX as int)
        } else if name == "i128"@ {
            Some(i128::MAX as int)
        } else if name == "u8"@ {
            Some(u8::MAX as int)
        } else if name == "u16"@ {
            Some(u16::MAX as int)
        } else if name == "u32"@ {
            Some(u32::MAX as int)
        } else if name == "u64"@ {
            Some(u64::MAX as int)
        } else {
            None
        },
    }
}

/// What a number literal evaluates to. A unit that names no kind is an
/// unknown unit, whatever the digits. Else the text must be decimal digits
/// that write a number within the kind's limit; any other text is a
/// malformed literal.
pub open spec fn number_value(text: Seq<char>, unit: Option<Seq<char>>) -> Result<
    ValueView,
    ErrorView,
> {
    match unit_limit(unit) {
        None => Err(about(ErrorKind::UnknownUnit, unit->0)),
        Some(limit) => if is_digits(text) && digits_value(text) <= limit {
            Ok(ValueView::Number(digits_value(text)))
        } else {
            Err(about(ErrorKind::MalformedLiteral, text))
        },
    }
}

/// A run of digits writes at least what any of its beginnings writes.
pub proof fn lemma_digits_grow(text: Seq<char>, k: int)
    requires
        0 <= k <= text.len(),
    ensures
        0 <= digits_value(text.take(k)) <= digits_value(text),
    decreases text.len(),
{
    if text.len() == 0 {
        assert(text.take(k) =~= text);
    } else if k == text.len() {
        assert(text.take(k) =~= text);
        lemma_digits_grow(text.drop_last(), k - 1);
        assert(text.drop_last().take(k - 1) =~= text.take(k - 1));
    } else {
        lemma_digits_grow(text.drop_last(), k);
        assert(text.drop_last().take(k) =~= text.take(k));
    }
}

/// The number a decimal digit stands for.
pub fn digit(c: char) -> (d: Option<u8>)
    ensures
        match digit_of(c) {
            Some(n) => d == Some(n as u8),
            None => d is None,
        },
{
    match c {
        '0' => Some(0),
        '1' => Some(1),
        '2' => Some(2),
        '3' => Some(3),
        '4' => Some(4),
        '5' => Some(5),
        '6' => Some(6),
        '7' => Some(7),
        '8' => Some(8),
        '9' => Some(9),
        _ => None,
    }
}

/// Reads decimal digits as a number no larger than `limit`.
pub fn parse_digits(text: &str, limit: i128) -> (number: Option<i128>)
    ensures
        match number {
            Some(n) => is_digits(text@) && n == digits_value(text@) && n <= limit,
            None => !(is_digits(text@) && digits_value(text@) <= limit),
        },
{
    let chars = characters(text);
    if chars.len() == 0 {
        return None;
    }
    if limit < 0 {
        proof {
            lemma_digits_grow(text@, 0);
        }
        return None;
    }
    let mut value: i128 = 0;
    let mut i: usize = 0;
    while i < chars.len()
        invariant
            i <= chars.len(),
            chars@ == text@,
            0 <= value <= limit,
            value == digits_value(text@.take(i as int)),
            forall|j: int| 0 <= j < i ==> (#[trigger] digit_of(text@[j])) is Some,
        decreases chars.len() - i,
    {
        let d = match digit(chars[i]) {
            Some(d) => d as i128,
            None => {
                return None;
            },
        };
        proof {
            assert(text@.take(i + 1).drop_last() =~= text@.take(i as int));
            assert(text@.take(i + 1).last() == text@[i as int]);
            lemma_digits_grow(text@, i + 1);
        }
        if d > limit || value > (limit - d) / 10 {
            return None;
        }
        value = value * 10 + d;
        i += 1;
    }
    proof {
        assert(text@.take(i as int) =~= text@);
    }
    Some(value)
}

/// The largest number a literal with the given unit may write.
pub fn limit_of_unit(unit: Option<&str>) -> (limit: Option<i128>)
    ensures
        match unit_limit(
            match unit {
                Some(name) => Some(name@),
                None => None,
            },
        ) {
            Some(n) => limit == Some(n as i128),
            None => limit is None,
        },
{
    match unit {
        None => Some(i128::MAX),
        Some(name) => {
            if str_equal(name, "i8") {
                Some(i8::MAX as i128)
            } else if str_equal(name, "i16") {
                Some(i16::MAX as i128)
            } else if str_equal(name, "i32") {
                Some(i32::MAX as i128)
            } else if str_equal(name, "i64") {
                Some(i64::MAX as i128)
            } else if str_equal(name, "i128") {
                Some(i128::MAX)
            } else if str_equal(name, "u8") {
                Some(u8::MAX as i128)
            } else if str_equal(name, "u16") {
                Some(u16::MAX as i128)
            } else if str_equal(name, "u32") {
                Some(u32::MAX as i128)
            } else if str_equal(name, "u64") {
                Some(u64::MAX as i128)
            } else {
                None
            }
        },
    }
}

/// Evaluates a number literal from its digits and its unit.
pub fn parse_number(text: &str, unit: Option<&str>) -> (number: Result<
    ValkyrieValue,
    ValkyrieError,
>)
    ensures
        match number_value(
            text@,
            match unit {
                Some(name) => Some(name@),
                None => None,
            },
        ) {
            Ok(value) => number matches Ok(v) && v@ == value,
            Err(error) => number matches Err(e) && e@ == error,
        },
{
    match limit_of_unit(unit) {
        None => match unit {
            Some(name) => Err(ValkyrieError::custom(ErrorKind::UnknownUnit, name)),
            None => Err(ValkyrieError::custom(ErrorKind::UnknownUnit, "")),
        },
        Some(limit) => match parse_digits(text, limit) {
            Some(n) => Ok(ValkyrieValue::Number(n)),
            None => Err(ValkyrieError::custom(ErrorKind::MalformedLiteral, text)),
        },
    }
}

// ---------------------------------------------------------------------------
// Text
// ---------------------------------------------------------------------------

/// `String::push`: the character is added at the end.
pub assume_specification[ std::string::String::push ](
    text: &mut std::string::String,
    ch: char,
)
    ensures
        final(text)@ == old(text)@.push(ch),
;

/// Whether a number is a Unicode scalar value: a code point that is no
/// surrogate.
pub open spec fn is_scalar(code: int) -> bool {
    0 <= code <= 0xD7FF || 0xE000 <= code <= 0x10FFFF
}

/// `char::from_u32`: the character of a scalar value, and nothing for any
/// other number.
pub assume_specification[ char::from_u32 ](code: u32) -> (c: Option<char>)
    ensures
        is_scalar(code as int) ==> c == Some(code as char),
        !is_scalar(code as int) ==> c is None,
;

/// The number a hexadecimal digit stands for; nothing for any other
/// character.
pub open spec fn hex_of(c: char) -> Option<int> {
    if digit_of(c) is Some {
        digit_of(c)
    } else if c == 'a' || c == 'A' {
        Some(10)
    } else if c == 'b' || c == 'B' {
        Some(11)
    } else if c == 'c' || c == 'C' {
        Some(12)
    } else if c == 'd' || c == 'D' {
        Some(13)
    } else if c == 'e' || c == 'E' {
        Some(14)
    } else if c == 'f' || c == 'F' {
        Some(15)
    } else {
        None
    }
}

/// Where the run of hexadecimal digits that starts at `from` ends: the first
/// place at or after `from` that holds no hexadecimal digit.
pub open spec fn hex_end(text: Seq<char>, from: int) -> int
    decreases text.len() - from,
{
    if 0 <= from < text.len() && hex_of(text[from]) is Some {
        hex_end(text, from + 1)
    } else {
        from
    }
}

/// The number that a run of hexadecimal digits writes.
pub open spec fn hex_value(text: Seq<char>) -> int
    decreases text.len(),
{
    if text.len() == 0 {
        0
    } else {
        hex_value(text.drop_last()) * 16 + match hex_of(text.last()) {
            Some(d) => d,
            None => 0,
        }
    }
}

/// What the character after a backslash stands for: `n`, `r` and `t` for a
/// line feed, a carriage return and a tab, any other for itself.
pub open spec fn escaped(c: char) -> char {
    if c == 'n' {
        '\n'
    } else if c == 'r' {
        '\r'
    } else if c == 't' {
        '\t'
    } else {
        c
    }
}

/// A text with one more character in front, or the error that was there.
pub open spec fn prepend(c: char, rest: Result<Seq<char>, ErrorView>) -> Result<
    Seq<char>,
    ErrorView,
> {
    match rest {
        Ok(text) => Ok(seq![c] + text),
        Err(error) => Err(error),
    }
}

/// The error of a text literal that cannot be read.
pub open spec fn malformed(text: Seq<char>) -> ErrorView {
    about(ErrorKind::MalformedLiteral, text)
}

/// The error of a text literal that holds an expression in braces.
pub open spec fn interpolated(text: Seq<char>) -> ErrorView {
    about(ErrorKind::UnsupportedExpressionKind, text)
}

/// What a text literal stands for from place `at` on.
///
/// A backslash and `u{`, one to six hexadecimal digits and `}` stand for the
/// character with that scalar value. Any other backslash stands with the
/// character after it for what `escaped` says. `{{` and `}}` stand for one
/// brace. Every other character but a brace stands for itself. A single `{`
/// opens an interpolated expression, which is not supported; a backslash at
/// the end, a single `}` and an ill-formed `\u{..}` are malformed.
pub open spec fn unescape_at(text: Seq<char>, at: int) -> Result<Seq<char>, ErrorView>
    decreases text.len() - at,
{
    if at < 0 || at >= text.len() {
        Ok(Seq::empty())
    } else if text[at] == '\\' {
        if at + 1 >= text.len() {
            Err(malformed(text))
        } else if text[at + 1] == 'u' && at + 2 < text.len() && text[at + 2] == '{' {
            let close = hex_end(text, at + 3);
            let code = hex_value(text.subrange(at + 3, close));
            if at + 3 < close <= at + 9 && close < text.len() && text[close] == '}' && is_scalar(
                code,
            ) {
                prepend(code as char, unescape_at(text, close + 1))
            } else {
                Err(malformed(text))
            }
        } else {
            prepend(escaped(text[at + 1]), unescape_at(text, at + 2))
        }
    } else if text[at] == '{' {
        if at + 1 < text.len() && text[at + 1] == '{' {
            prepend('{', unescape_at(text, at + 2))
        } else {
            Err(interpolated(text))
        }
    } else if text[at] == '}' {
        if at + 1 < text.len() && text[at + 1] == '}' {
            prepend('}', unescape_at(text, at + 2))
        } else {
            Err(malformed(text))
        }
    } else {
        prepend(text[at], unescape_at(text, at + 1))
    }
}

/// What a text literal without a handler stands for.
pub open spec fn unescaped(text: Seq<char>) -> Result<Seq<char>, ErrorView> {
    unescape_at(text, 0)
}

/// What is read so far, followed by what the rest stands for.
pub open spec fn joined(done: Seq<char>, rest: Result<Seq<char>, ErrorView>) -> Result<
    Seq<char>,
    ErrorView,
> {
    match rest {
        Ok(text) => Ok(done + text),
        Err(error) => Err(error),
    }
}

proof fn lemma_joined_push(done: Seq<char>, c: char, rest: Result<Seq<char>, ErrorView>)
    ensures
        joined(done, prepend(c, rest)) == joined(done.push(c), rest),
{
    if let Ok(text) = rest {
        assert(done + (seq![c] + text) =~= done.push(c) + text);
    }
}

proof fn lemma_hex_end_bounds(text: Seq<char>, from: int)
    requires
        0 <= from <= text.len(),
    ensures
        from <= hex_end(text, from) <= text.len(),
        forall|j: int| from <= j < hex_end(text, from) ==> (#[trigger] hex_of(text[j])) is Some,
        hex_end(text, from) < text.len() ==> hex_of(text[hex_end(text, from)]) is None,
    decreases text.len() - from,
{
    if from < text.len() && hex_of(text[from]) is Some {
        lemma_hex_end_bounds(text, from + 1);
    }
}

/// The number a hexadecimal digit stands for.
pub fn hex_digit(c: char) -> (d: Option<u8>)
    ensures
        match hex_of(c) {
            Some(n) => d == Some(n as u8),
            None => d is None,
        },
{
    match c {
        'a' | 'A' => Some(10),
        'b' | 'B' => Some(11),
        'c' | 'C' => Some(12),
        'd' | 'D' => Some(13),
        'e' | 'E' => Some(14),
        'f' | 'F' => Some(15),
        _ => digit(c),
    }
}

/// What the character after a backslash stands for.
pub fn escape(c: char) -> (e: char)
    ensures
        e == escaped(c),
{
    match c {
        'n' => '\n',
        'r' => '\r',
        't' => '\t',
        _ => c,
    }
}

/// Reads the hexadecimal digits of a `\u{..}` escape, which start at `from`,
/// up to the closing brace. Gives the character and the place after the
/// brace, or nothing where the escape is ill-formed.
fn read_scalar(chars: &Vec<char>, from: usize) -> (read: Option<(char, usize)>)
    requires
        from <= chars.len(),
    ensures
        ({
            let close = hex_end(chars@, from as int);
            let code = hex_value(chars@.subrange(from as int, close));
            let well = from < close <= from + 6 && close < chars.len() && chars@[close] == '}'
                && is_scalar(code);
            match read {
                Some((c, next)) => well && c == code as char && next == close + 1,
                None => !well,
            }
        }),
{
    let mut j: usize = from;
    let mut code: u32 = 0;
    proof {
        lemma_hex_end_bounds(chars@, from as int);
        assert(chars@.subrange(from as int, from as int) =~= Seq::<char>::empty());
    }
    while j < chars.len() && j - from < 7
        invariant
            from <= j <= chars.len(),
            j - from <= 7,
            hex_end(chars@, from as int) == hex_end(chars@, j as int),
            code == hex_value(chars@.subrange(from as int, j as int)),
            code < pow16(j - from),
        ensures
            j == chars.len() || j - from >= 7 || hex_of(chars@[j as int]) is None,
        decreases chars.len() - j,
    {
        let d = match hex_digit(chars[j]) {
            Some(d) => d as u32,
            None => {
                break ;
            },
        };
        proof {
            let run = chars@.subrange(from as int, j + 1);
            assert(run.drop_last() =~= chars@.subrange(from as int, j as int));
            assert(run.last() == chars@[j as int]);
            lemma_pow16(j - from);
        }
        code = code * 16 + d;
        j += 1;
    }
    proof {
        lemma_hex_end_bounds(chars@, j as int);
    }
    if j - from > 6 || j == from {
        return None;
    }
    if j >= chars.len() {
        return None;
    }
    if chars[j] != '}' {
        return None;
    }
    match char::from_u32(code) {
        Some(c) => Some((c, j + 1)),
        None => None,
    }
}

/// Sixteen to the given power, for the powers that a `\u{..}` escape needs.
pub open spec fn pow16(n: int) -> int {
    if n <= 0 {
        1
    } else if n == 1 {
        0x10
    } else if n == 2 {
        0x100
    } else if n == 3 {
        0x1000
    } else if n == 4 {
        0x1_0000
    } else if n == 5 {
        0x10_0000
    } else if n == 6 {
        0x100_0000
    } else {
        0x1000_0000
    }
}

proof fn lemma_pow16(n: int)
    requires
        0 <= n < 7,
    ensures
        pow16(n + 1) == 16 * pow16(n),
{
}

/// Reads a text literal that has no handler: resolves its escapes.
pub fn unescape(text: &str) -> (read: Result<String, ValkyrieError>)
    ensures
        match unescaped(text@) {
            Ok(content) => read matches Ok(t) && t@ == content,
            Err(error) => read matches Err(e) && e@ == error,
        },
{
    let chars = characters(text);
    let mut out = String::new();
    let mut i: usize = 0;
    proof {
        assert(Seq::<char>::empty() + unescape_at(text@, 0)->Ok_0 =~= unescape_at(text@, 0)->Ok_0);
    }
    while i < chars.len()
        invariant
            i <= chars.len(),
            chars@ == text@,
            unescaped(text@) == joined(out@, unescape_at(text@, i as int)),
        decreases chars.len() - i,
    {
        let c = chars[i];
        if c == '\\' {
            if i + 1 >= chars.len() {
                return Err(ValkyrieError::custom(ErrorKind::MalformedLiteral, text));
            }
            let next = chars[i + 1];
            if next == 'u' && i + 2 < chars.len() && chars[i + 2] == '{' {
                match read_scalar(&chars, i + 3) {
                    Some((scalar, after)) => {
                        proof {
                            lemma_joined_push(out@, scalar, unescape_at(text@, after as int));
                        }
                        out.push(scalar);
                        i = after;
                    },
                    None => {
                        return Err(ValkyrieError::custom(ErrorKind::MalformedLiteral, text));
                    },
                }
            } else {
                proof {
                    lemma_joined_push(out@, escaped(next), unescape_at(text@, i + 2));
                }
                out.push(escape(next));
                i += 2;
            }
        } else if c == '{' {
            if i + 1 < chars.len() && chars[i + 1] == '{' {
                proof {
                    lemma_joined_push(out@, '{', unescape_at(text@, i + 2));
                }
                out.push('{');
                i += 2;
            } else {
                return Err(ValkyrieError::custom(ErrorKind::UnsupportedExpressionKind, text));
            }
        } else if c == '}' {
            if i + 1 < chars.len() && chars[i + 1] == '}' {
                proof {
                    lemma_joined_push(out@, '}', unescape_at(text@, i + 2));
                }
                out.push('}');
                i += 2;
            } else {
                return Err(ValkyrieError::custom(ErrorKind::MalformedLiteral, text));
            }
        } else {
            proof {
                lemma_joined_push(out@, c, unescape_at(text@, i + 1));
            }
            out.push(c);
            i += 1;
        }
    }
    proof {
        assert(out@ + Seq::<char>::empty() =~= out@);
    }
    Ok(out)
}

// ---------------------------------------------------------------------------
// Text literals and their handlers
// ---------------------------------------------------------------------------

/// What a text literal evaluates to.
///
/// Without a handler its escapes are resolved. The handler `r` takes the
/// text as it stands, and so do `re` and `sh`, which keep a pattern and a
/// command as text for now; `html` takes it as markup; `json` reads it as
/// JSON5, as `json_literal` says. Any other handler is unknown.
pub open spec fn string_value(literal: Seq<char>, handler: Option<Seq<char>>) -> Result<
    ValueView,
    ErrorView,
> {
    match handler {
        None => match unescaped(literal) {
            Ok(text) => Ok(ValueView::Text(text)),
            Err(error) => Err(error),
        },
        Some(name) => if name == "r"@ || name == "re"@ || name == "sh"@ {
            Ok(ValueView::Text(literal))
        } else if name == "html"@ {
            Ok(ValueView::Html(literal))
        } else if name == "json"@ {
            json_literal(literal)
        } else {
            Err(about(ErrorKind::UnknownHandler, name))
        },
    }
}

/// A pattern, kept as text until patterns have a kind of their own.
pub fn execute_regex(string: &str) -> (value: Result<ValkyrieValue, ValkyrieError>)
    ensures
        value matches Ok(v) && v@ == ValueView::Text(string@),
{
    Ok(ValkyrieValue::UTF8String(String::from_str(string)))
}

/// A command, kept as text; nothing runs it.
pub fn execute_shell(shell: &str) -> (value: Result<ValkyrieValue, ValkyrieError>)
    ensures
        value matches Ok(v) && v@ == ValueView::Text(shell@),
{
    Ok(ValkyrieValue::UTF8String(String::from_str(shell)))
}

/// Evaluates a text literal from its text and its handler.
pub fn parse_string(literal: &str, handler: Option<&str>) -> (value: Result<
    ValkyrieValue,
    ValkyrieError,
>)
    ensures
        match string_value(
            literal@,
            match handler {
                Some(name) => Some(name@),
                None => None,
            },
        ) {
            Ok(v) => value matches Ok(made) && made@ == v,
            Err(e) => value matches Err(error) && error@ == e,
        },
{
    match handler {
        None => match unescape(literal) {
            Ok(text) => Ok(ValkyrieValue::UTF8String(text)),
            Err(error) => Err(error),
        },
        Some(name) => {
            if str_equal(name, "r") {
                Ok(ValkyrieValue::UTF8String(String::from_str(literal)))
            } else if str_equal(name, "re") {
                execute_regex(literal)
            } else if str_equal(name, "sh") {
                execute_shell(literal)
            } else if str_equal(name, "html") {
                Ok(ValkyrieValue::Html(String::from_str(literal)))
            } else if str_equal(name, "json") {
                execute_json(literal)
            } else {
                Err(ValkyrieError::custom(ErrorKind::UnknownHandler, name))
            }
        },
    }
}

} // verus!
