//! Values as text: decimal numbers, JSON, and the rendering that a front
//! end shows for a value.
use vstd::prelude::*;
use vstd::string::StringExecFns;

use crate::display::{DisplayKeywords, DisplayNumber, DisplayText};
use crate::literal::{digit_of, digits_value, is_digits};
use crate::value::{items_view, lemma_items_view, ItemView, ValkyrieItem, ValkyrieValue, ValueView};

verus! {

// ---------------------------------------------------------------------------
// Decimal numbers
// ---------------------------------------------------------------------------

/// The decimal digit that writes a number below ten.
pub open spec fn digit_char(d: int) -> char {
    if d == 0 {
        '0'
    } else if d == 1 {
        '1'
    } else if d == 2 {
        '2'
    } else if d == 3 {
        '3'
    } else if d == 4 {
        '4'
    } else if d == 5 {
        '5'
    } else if d == 6 {
        '6'
    } else if d == 7 {
        '7'
    } else if d == 8 {
        '8'
    } else {
        '9'
    }
}

/// The decimal digits of a natural number, without leading zeros.
pub open spec fn digits_of(n: nat) -> Seq<char>
    decreases n,
{
    if n < 10 {
        seq![digit_char(n as int)]
    } else {
        digits_of(n / 10).push(digit_char((n % 10) as int))
    }
}

/// A whole number in decimal, with a minus sign before a negative one.
pub open spec fn decimal(n: int) -> Seq<char> {
    if n < 0 {
        seq!['-'] + digits_of((-n) as nat)
    } else {
        digits_of(n as nat)
    }
}

/// Reading back what was written: the digits of a number are decimal
/// digits, and they write that number.
pub proof fn law_digits_round_trip(n: nat)
    ensures
        is_digits(digits_of(n)),
        digits_value(digits_of(n)) == n,
    decreases n,
{
    if n < 10 {
        assert(digits_of(n).drop_last() =~= Seq::<char>::empty());
        assert(digits_value(digits_of(n).drop_last()) == 0);
    } else {
        law_digits_round_trip(n / 10);
        let d = digit_char((n % 10) as int);
        assert(digits_of(n).drop_last() =~= digits_of(n / 10));
        assert(digits_of(n).last() == d);
        assert forall|i: int| 0 <= i < digits_of(n).len() implies (#[trigger] digit_of(
            digits_of(n)[i],
        )) is Some by {
            if i < digits_of(n).len() - 1 {
                assert(digits_of(n)[i] == digits_of(n / 10)[i]);
            }
        }
    }
}

/// The decimal digit that writes a number below ten.
fn digit_to_char(d: u8) -> (c: char)
    requires
        d < 10,
    ensures
        c == digit_char(d as int),
{
    match d {
        0 => '0',
        1 => '1',
        2 => '2',
        3 => '3',
        4 => '4',
        5 => '5',
        6 => '6',
        7 => '7',
        8 => '8',
        _ => '9',
    }
}

/// Adds the characters at the end of a text.
pub fn push_all(text: &mut String, chars: &Vec<char>)
    ensures
        final(text)@ == old(text)@ + chars@,
{
    let mut i: usize = 0;
    assert(text@ =~= old(text)@ + chars@.take(0));
    while i < chars.len()
        invariant
            i <= chars.len(),
            text@ == old(text)@ + chars@.take(i as int),
        decreases chars.len() - i,
    {
        text.push(chars[i]);
        assert(chars@.take(i + 1) =~= chars@.take(i as int).push(chars@[i as int]));
        assert(text@ =~= old(text)@ + chars@.take(i + 1));
        i += 1;
    }
    assert(chars@.take(i as int) =~= chars@);
}

/// Writes a whole number in decimal.
pub fn format_number(n: i128) -> (text: String)
    ensures
        text@ == decimal(n as int),
{
    let mut text = String::new();
    let mut rest: u128 = if n < 0 {
        text.push('-');
        ((-(n + 1)) as u128) + 1
    } else {
        n as u128
    };
    let ghost whole = rest as nat;
    let mut tail: Vec<char> = Vec::new();
    assert(digits_of(whole) =~= digits_of(rest as nat) + tail@);
    while rest >= 10
        invariant
            digits_of(whole) == digits_of(rest as nat) + tail@,
        decreases rest,
    {
        let d = digit_to_char((rest % 10) as u8);
        tail.insert(0, d);
        assert(digits_of(rest as nat) + tail@.remove(0) =~= digits_of((rest / 10) as nat) + tail@);
        rest = rest / 10;
    }
    tail.insert(0, digit_to_char(rest as u8));
    assert(digits_of(whole) =~= tail@);
    push_all(&mut text, &tail);
    proof {
        if n < 0 {
            assert(Seq::<char>::empty().push('-') =~= seq!['-']);
        } else {
            assert(Seq::<char>::empty() + tail@ =~= tail@);
        }
    }
    text
}

// ---------------------------------------------------------------------------
// JSON
// ---------------------------------------------------------------------------

/// The hexadecimal digit, in lower case, that writes a number below sixteen.
pub open spec fn hex_char(d: int) -> char {
    if d < 10 {
        digit_char(d)
    } else if d == 10 {
        'a'
    } else if d == 11 {
        'b'
    } else if d == 12 {
        'c'
    } else if d == 13 {
        'd'
    } else if d == 14 {
        'e'
    } else {
        'f'
    }
}

/// How one character stands inside a JSON string: a quote and a backslash
/// behind a backslash; a line feed, a carriage return and a tab as `\n`,
/// `\r` and `\t`; any other character below the space as `\u00` and its two
/// hexadecimal digits; every other character as itself.
pub open spec fn json_escape(c: char) -> Seq<char> {
    if c == '"' {
        seq!['\\', '"']
    } else if c == '\\' {
        seq!['\\', '\\']
    } else if c == '\n' {
        seq!['\\', 'n']
    } else if c == '\r' {
        seq!['\\', 'r']
    } else if c == '\t' {
        seq!['\\', 't']
    } else if (c as int) < 0x20 {
        seq!['\\', 'u', '0', '0', hex_char((c as int) / 16), hex_char((c as int) % 16)]
    } else {
        seq![c]
    }
}

/// The characters of a text as they stand inside a JSON string.
pub open spec fn json_escaped(text: Seq<char>) -> Seq<char>
    decreases text.len(),
{
    if text.len() == 0 {
        Seq::empty()
    } else {
        json_escaped(text.drop_last()) + json_escape(text.last())
    }
}

/// A text as a JSON string.
pub open spec fn json_quoted(text: Seq<char>) -> Seq<char> {
    seq!['"'] + json_escaped(text) + seq!['"']
}

/// A value as JSON. Nothing, null and unit are `null`; text and markup are
/// strings; a JSON document stands as it is; an aggregate is an array, in
/// which a named item is an object of one member.
pub open spec fn json_text(value: ValueView) -> Seq<char>
    decreases value,
{
    match value {
        ValueView::Nothing => "null"@,
        ValueView::Null => "null"@,
        ValueView::Unit => "null"@,
        ValueView::Boolean(b) => if b {
            "true"@
        } else {
            "false"@
        },
        ValueView::Number(n) => decimal(n),
        ValueView::Text(s) => json_quoted(s),
        ValueView::Html(s) => json_quoted(s),
        ValueView::Json(s) => s,
        ValueView::List(items) => seq!['['] + json_items(items) + seq![']'],
    }
}

/// One item of an aggregate as JSON.
pub open spec fn json_item(item: ItemView) -> Seq<char>
    decreases item,
{
    match item.key {
        None => json_text(item.value),
        Some(name) => seq!['{'] + json_quoted(name) + seq![':'] + json_text(item.value) + seq!['}'],
    }
}

/// The items of an aggregate as JSON, with a comma between each two.
pub open spec fn json_items(items: Seq<ItemView>) -> Seq<char>
    decreases items,
{
    if items.len() == 0 {
        Seq::empty()
    } else if items.len() == 1 {
        json_item(items[0])
    } else {
        json_items(items.drop_last()) + seq![','] + json_item(items.last())
    }
}

/// The hexadecimal digit that writes a number below sixteen.
fn hex_to_char(d: u8) -> (c: char)
    requires
        d < 16,
    ensures
        c == hex_char(d as int),
{
    match d {
        10 => 'a',
        11 => 'b',
        12 => 'c',
        13 => 'd',
        14 => 'e',
        15 => 'f',
        _ => digit_to_char(d),
    }
}

/// How one character stands inside a JSON string, added at the end of a
/// text.
pub fn push_json_escape(text: &mut String, c: char)
    ensures
        final(text)@ == old(text)@ + json_escape(c),
{
    let code = c as u32;
    if c == '"' {
        text.push('\\');
        text.push('"');
    } else if c == '\\' {
        text.push('\\');
        text.push('\\');
    } else if c == '\n' {
        text.push('\\');
        text.push('n');
    } else if c == '\r' {
        text.push('\\');
        text.push('r');
    } else if c == '\t' {
        text.push('\\');
        text.push('t');
    } else if code < 0x20 {
        text.push('\\');
        text.push('u');
        text.push('0');
        text.push('0');
        text.push(hex_to_char((code / 16) as u8));
        text.push(hex_to_char((code % 16) as u8));
    } else {
        text.push(c);
    }
    assert(text@ =~= old(text)@ + json_escape(c));
}

/// Writes a text as a JSON string.
pub fn quote_json(text: &str) -> (quoted: String)
    ensures
        quoted@ == json_quoted(text@),
{
    let chars = crate::literal::characters(text);
    let mut quoted = String::new();
    quoted.push('"');
    assert(quoted@ =~= seq!['"'] + json_escaped(chars@.take(0)));
    let mut i: usize = 0;
    while i < chars.len()
        invariant
            i <= chars.len(),
            quoted@ == seq!['"'] + json_escaped(chars@.take(i as int)),
        decreases chars.len() - i,
    {
        push_json_escape(&mut quoted, chars[i]);
        proof {
            let next = chars@.take(i + 1);
            assert(next.drop_last() =~= chars@.take(i as int));
            assert(next.last() == chars@[i as int]);
            assert(quoted@ =~= seq!['"'] + json_escaped(next));
        }
        i += 1;
    }
    assert(chars@.take(i as int) =~= chars@);
    quoted.push('"');
    quoted
}

/// One item of an aggregate as JSON, added at the end of a text.
fn push_json_item(text: &mut String, item: &ValkyrieItem)
    ensures
        final(text)@ == old(text)@ + json_item(item@),
    decreases item, 1nat,
{
    match &item.key {
        None => {
            let value = to_json(&item.value);
            text.append(value.as_str());
        },
        Some(name) => {
            text.push('{');
            let quoted = quote_json(name.as_str());
            text.append(quoted.as_str());
            text.push(':');
            let value = to_json(&item.value);
            text.append(value.as_str());
            text.push('}');
            assert(text@ =~= old(text)@ + json_item(item@));
        },
    }
}

/// Writes a value as JSON.
pub fn to_json(value: &ValkyrieValue) -> (text: String)
    ensures
        text@ == json_text(value@),
    decreases value, 0nat,
{
    match value {
        ValkyrieValue::Nothing => String::from_str("null"),
        ValkyrieValue::Null => String::from_str("null"),
        ValkyrieValue::Unit => String::from_str("null"),
        ValkyrieValue::Boolean(b) => {
            if *b {
                String::from_str("true")
            } else {
                String::from_str("false")
            }
        },
        ValkyrieValue::Number(n) => format_number(*n),
        ValkyrieValue::UTF8String(s) => quote_json(s.as_str()),
        ValkyrieValue::Html(s) => quote_json(s.as_str()),
        ValkyrieValue::Json(s) => s.clone(),
        ValkyrieValue::List(items) => {
            let mut text = String::new();
            text.push('[');
            proof {
                lemma_items_view(items@);
            }
            let ghost views = items_view(items@);
            assert(text@ =~= seq!['['] + json_items(views.take(0)));
            let mut i: usize = 0;
            while i < items.len()
                invariant
                    i <= items.len(),
                    *value == ValkyrieValue::List(*items),
                    views == items_view(items@),
                    views.len() == items.len(),
                    forall|j: int| 0 <= j < items.len() ==> #[trigger] views[j] == items[j]@,
                    text@ == seq!['['] + json_items(views.take(i as int)),
                decreases items.len() - i,
            {
                proof {
                    // The item is a part of this value, so writing it is a
                    // smaller task.
                    assert(value->List_0 == *items);
                    assert(decreases_to!(*value => value->List_0));
                    assert(decreases_to!(items@ => items@[i as int]));
                }
                if i > 0 {
                    text.push(',');
                }
                push_json_item(&mut text, &items[i]);
                proof {
                    let next = views.take(i + 1);
                    assert(next.drop_last() =~= views.take(i as int));
                    assert(next.last() == items[i as int]@);
                    assert(text@ =~= seq!['['] + json_items(next));
                }
                i += 1;
            }
            assert(views.take(i as int) =~= views);
            text.push(']');
            text
        },
    }
}

// ---------------------------------------------------------------------------
// What a front end shows
// ---------------------------------------------------------------------------

/// What is shown for a value.
#[derive(Debug)]
pub enum Displayed {
    /// A keyword-like value, in the keyword colour.
    Keywords(DisplayKeywords),
    /// A number, in the number colour.
    Number(DisplayNumber),
    /// Plain text.
    Text(DisplayText),
    /// Markup, as it is.
    Html(String),
    /// A JSON document, as its text.
    Json(String),
}

/// The mathematical content of a `Displayed`.
pub enum DisplayedView {
    Keywords(Seq<char>),
    Number(Seq<char>),
    Text(Seq<char>),
    Html(Seq<char>),
    Json(Seq<char>),
}

impl View for Displayed {
    type V = DisplayedView;

    open spec fn view(&self) -> DisplayedView {
        match self {
            Displayed::Keywords(shown) => DisplayedView::Keywords(shown@),
            Displayed::Number(shown) => DisplayedView::Number(shown@.text),
            Displayed::Text(shown) => DisplayedView::Text(shown@),
            Displayed::Html(markup) => DisplayedView::Html(markup@),
            Displayed::Json(document) => DisplayedView::Json(document@),
        }
    }
}

/// What is shown for a value. Nothing is never shown. Null, unit and the
/// booleans are keywords; a number is shown in decimal; text and markup as
/// they are; a JSON document as its text, and an aggregate as JSON too.
pub open spec fn displayed(value: ValueView) -> Option<DisplayedView> {
    match value {
        ValueView::Nothing => None,
        ValueView::Null => Some(DisplayedView::Keywords("null"@)),
        ValueView::Unit => Some(DisplayedView::Keywords("( )"@)),
        ValueView::Boolean(b) => Some(
            DisplayedView::Keywords(
                if b {
                    "true"@
                } else {
                    "false"@
                },
            ),
        ),
        ValueView::Number(n) => Some(DisplayedView::Number(decimal(n))),
        ValueView::Text(s) => Some(DisplayedView::Text(s)),
        ValueView::Html(s) => Some(DisplayedView::Html(s)),
        ValueView::Json(s) => Some(DisplayedView::Json(s)),
        ValueView::List(_) => Some(DisplayedView::Json(json_text(value))),
    }
}

/// Picks what to show for a value.
pub fn display_value(value: &ValkyrieValue) -> (shown: Option<Displayed>)
    ensures
        match displayed(value@) {
            Some(view) => shown matches Some(made) && made@ == view,
            None => shown is None,
        },
{
    match value {
        ValkyrieValue::Nothing => None,
        ValkyrieValue::Null => Some(Displayed::Keywords(DisplayKeywords::new("null"))),
        ValkyrieValue::Unit => Some(Displayed::Keywords(DisplayKeywords::new("( )"))),
        ValkyrieValue::Boolean(b) => {
            if *b {
                Some(Displayed::Keywords(DisplayKeywords::new("true")))
            } else {
                Some(Displayed::Keywords(DisplayKeywords::new("false")))
            }
        },
        ValkyrieValue::Number(n) => {
            let digits = format_number(*n);
            Some(Displayed::Number(DisplayNumber::new(digits.as_str())))
        },
        ValkyrieValue::UTF8String(s) => Some(Displayed::Text(DisplayText::new(s.as_str()))),
        ValkyrieValue::Html(s) => Some(Displayed::Html(s.clone())),
        ValkyrieValue::Json(s) => Some(Displayed::Json(s.clone())),
        ValkyrieValue::List(_) => Some(Displayed::Json(to_json(value))),
    }
}

} // verus!
