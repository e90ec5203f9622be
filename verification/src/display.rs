//! Renderings of evaluated values for a notebook front end.
//!
//! Each renderable carries the text to show and knows its MIME type and the
//! markup it contributes to a cell's output. The markup is plain text here;
//! wrapping it in a transport message is the front end's business.
use vstd::prelude::*;
use vstd::string::StringExecFns;

verus! {

/// The colour scheme of the notebook that asks for a rendering.
#[derive(Clone, Copy, Debug, PartialEq, Eq, Structural)]
pub enum JupyterTheme {
    Light,
    Dark,
}

/// The markup of a coloured span: `<span style="color: C">T</span>`.
pub open spec fn colored_span(color: Seq<char>, text: Seq<char>) -> Seq<char> {
    "<span style=\"color: "@ + color + "\">"@ + text + "</span>"@
}

/// Builds the markup of a coloured span around `text`.
pub fn render_span(color: &str, text: &str) -> (markup: String)
    ensures
        markup@ == colored_span(color@, text@),
{
    let mut markup = String::from_str("<span style=\"color: ");
    markup.append(color);
    markup.append("\">");
    markup.append(text);
    markup.append("</span>");
    markup
}

/// A keyword-like value (`null`, `true`, `( )`), shown in the keyword colour.
#[derive(Debug)]
pub struct DisplayKeywords {
    text: String,
}

impl View for DisplayKeywords {
    type V = Seq<char>;

    /// The text that is shown.
    closed spec fn view(&self) -> Seq<char> {
        self.text@
    }
}

impl DisplayKeywords {
    /// The colour keywords are shown in, for either theme.
    pub open spec fn color(theme: JupyterTheme) -> Seq<char> {
        "#A626A4"@
    }

    pub fn new(text: &str) -> (shown: Self)
        ensures
            shown@ == text@,
    {
        DisplayKeywords { text: String::from_str(text) }
    }

    pub fn mime_type(&self) -> (mime: String)
        ensures
            mime@ == "text/html"@,
    {
        String::from_str("text/html")
    }

    pub fn as_json(&self, theme: JupyterTheme) -> (markup: String)
        ensures
            markup@ == colored_span(Self::color(theme), self@),
    {
        let color = match theme {
            JupyterTheme::Light => "#A626A4",
            JupyterTheme::Dark => "#A626A4",
        };
        render_span(color, self.text.as_str())
    }
}

/// Plain text, shown as it is.
#[derive(Debug)]
pub struct DisplayText {
    text: String,
}

impl View for DisplayText {
    type V = Seq<char>;

    /// The text that is shown.
    closed spec fn view(&self) -> Seq<char> {
        self.text@
    }
}

impl DisplayText {
    pub fn new(text: &str) -> (shown: Self)
        ensures
            shown@ == text@,
    {
        DisplayText { text: String::from_str(text) }
    }

    pub fn mime_type(&self) -> (mime: String)
        ensures
            mime@ == "text/plaintext"@,
    {
        String::from_str("text/plaintext")
    }

    pub fn as_json(&self, theme: JupyterTheme) -> (markup: String)
        ensures
            markup@ == self@,
    {
        self.text.clone()
    }
}

/// What a `DisplayNumber` holds: the digits shown and the type hint beside them.
pub struct NumberView {
    pub hint: Seq<char>,
    pub text: Seq<char>,
}

/// A number, shown in the number colour. The hint names its type and is
/// empty where none was given.
#[derive(Debug)]
pub struct DisplayNumber {
    hint: String,
    text: String,
}

impl View for DisplayNumber {
    type V = NumberView;

    closed spec fn view(&self) -> NumberView {
        NumberView { hint: self.hint@, text: self.text@ }
    }
}

impl DisplayNumber {
    /// The colour numbers are shown in, for either theme.
    pub open spec fn color(theme: JupyterTheme) -> Seq<char> {
        "#986801"@
    }

    /// A number without a type hint.
    pub fn new(text: &str) -> (shown: Self)
        ensures
            shown@.text == text@,
            shown@.hint == Seq::<char>::empty(),
    {
        DisplayNumber { hint: String::new(), text: String::from_str(text) }
    }

    /// A number with the name of its type.
    pub fn hinted(text: &str, hint: &str) -> (shown: Self)
        ensures
            shown@.text == text@,
            shown@.hint == hint@,
    {
        DisplayNumber { hint: String::from_str(hint), text: String::from_str(text) }
    }

    pub fn mime_type(&self) -> (mime: String)
        ensures
            mime@ == "text/html"@,
    {
        String::from_str("text/html")
    }

    pub fn as_json(&self, theme: JupyterTheme) -> (markup: String)
        ensures
            markup@ == colored_span(Self::color(theme), self@.text),
    {
        let color = match theme {
            JupyterTheme::Light => "#986801",
            JupyterTheme::Dark => "#986801",
        };
        render_span(color, self.text.as_str())
    }
}

} // verus!
