//! Styled text as the transcript shows it: spans of text with one style
//! each, lines made of spans, and the two kinds of transcript cells.

use vstd::prelude::*;

verus! {

/// How a span is drawn.
#[derive(Clone, Copy, Debug, PartialEq, Eq, Structural)]
pub enum SpanStyle {
    /// No styling.
    Plain,
    /// Bold text.
    Bold,
    /// Dimmed text.
    Dim,
    /// Green foreground.
    Green,
    /// Red foreground.
    Red,
    /// Cyan foreground.
    Cyan,
}

/// A piece of text with one style.
#[derive(Clone, Debug, PartialEq, Eq)]
pub struct StyledSpan {
    pub text: String,
    pub style: SpanStyle,
}

/// A span as a value: its characters and its style.
pub type SpanView = (Seq<char>, SpanStyle);

impl View for StyledSpan {
    type V = SpanView;

    open spec fn view(&self) -> SpanView {
        (self.text@, self.style)
    }
}

/// The views of a sequence of spans: a line.
pub open spec fn line_view(spans: Seq<StyledSpan>) -> Seq<SpanView> {
    spans.map_values(|s: StyledSpan| s@)
}

pub open spec fn plain(text: Seq<char>) -> SpanView {
    (text, SpanStyle::Plain)
}

pub open spec fn bold(text: Seq<char>) -> SpanView {
    (text, SpanStyle::Bold)
}

pub open spec fn dim(text: Seq<char>) -> SpanView {
    (text, SpanStyle::Dim)
}

pub open spec fn green(text: Seq<char>) -> SpanView {
    (text, SpanStyle::Green)
}

pub open spec fn red(text: Seq<char>) -> SpanView {
    (text, SpanStyle::Red)
}

pub open spec fn cyan(text: Seq<char>) -> SpanView {
    (text, SpanStyle::Cyan)
}

impl StyledSpan {
    /// A span owning `text`.
    pub fn new(text: String, style: SpanStyle) -> (s: StyledSpan)
        ensures
            s@ == (text@, style),
    {
        StyledSpan { text, style }
    }

    /// A span holding a copy of `text`.
    pub fn from_text(text: &str, style: SpanStyle) -> (s: StyledSpan)
        ensures
            s@ == (text@, style),
    {
        StyledSpan { text: text.to_string(), style }
    }
}

/// A transcript cell of one logical line that wraps: its first row starts
/// with `initial_prefix`, the rows it wraps onto start with `subsequent_prefix`.
#[derive(Clone, Debug, PartialEq, Eq)]
pub struct PrefixedWrappedHistoryCell {
    pub line: Vec<StyledSpan>,
    pub initial_prefix: StyledSpan,
    pub subsequent_prefix: String,
}

/// A prefixed cell as a value.
pub struct PrefixedCellView {
    pub line: Seq<SpanView>,
    pub initial_prefix: SpanView,
    pub subsequent_prefix: Seq<char>,
}

impl View for PrefixedWrappedHistoryCell {
    type V = PrefixedCellView;

    open spec fn view(&self) -> PrefixedCellView {
        PrefixedCellView {
            line: line_view(self.line@),
            initial_prefix: self.initial_prefix@,
            subsequent_prefix: self.subsequent_prefix@,
        }
    }
}

impl PrefixedWrappedHistoryCell {
    pub fn new(line: Vec<StyledSpan>, initial_prefix: StyledSpan, subsequent_prefix: &str) -> (cell:
        PrefixedWrappedHistoryCell)
        ensures
            cell@ == (PrefixedCellView {
                line: line_view(line@),
                initial_prefix: initial_prefix@,
                subsequent_prefix: subsequent_prefix@,
            }),
    {
        PrefixedWrappedHistoryCell {
            line,
            initial_prefix,
            subsequent_prefix: subsequent_prefix.to_string(),
        }
    }
}

/// A transcript cell of plain lines.
#[derive(Clone, Debug, PartialEq, Eq)]
pub struct PlainHistoryCell {
    pub lines: Vec<Vec<StyledSpan>>,
}

impl View for PlainHistoryCell {
    type V = Seq<Seq<SpanView>>;

    open spec fn view(&self) -> Seq<Seq<SpanView>> {
        self.lines@.map_values(|l: Vec<StyledSpan>| line_view(l@))
    }
}

} // verus!
