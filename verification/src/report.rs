//! What a command has to say, before it is coloured and printed.

use vstd::prelude::*;

verus! {

/// How a piece of output is to stand out.
#[derive(Debug, Clone, Copy, PartialEq, Eq, Structural)]
pub enum Style {
    Plain,
    /// Less prominent than its surroundings.
    Dimmed,
    /// The word for an action that was carried out.
    Done,
    /// A value worth noticing.
    Strong,
}

/// A piece of output.
#[derive(Debug, PartialEq, Eq)]
pub struct Span {
    pub style: Style,
    pub text: String,
}

impl View for Span {
    type V = (Style, Seq<char>);

    open spec fn view(&self) -> (Style, Seq<char>) {
        (self.style, self.text@)
    }
}

/// The output of a command.
#[derive(Debug, PartialEq, Eq)]
pub struct Report {
    /// The pieces for standard output, line ends included.
    pub out: Vec<Span>,
    /// The text for standard error, line ends included.
    pub err: String,
}

/// The contents of a report.
pub ghost struct ReportView {
    pub out: Seq<(Style, Seq<char>)>,
    pub err: Seq<char>,
}

impl View for Report {
    type V = ReportView;

    open spec fn view(&self) -> ReportView {
        ReportView { out: self.out@.map_values(|span: Span| span@), err: self.err@ }
    }
}

/// The text of the first `n` pieces, one after the other.
pub open spec fn text_of_first(spans: Seq<Span>, n: int) -> Seq<char>
    decreases n,
{
    if n <= 0 {
        Seq::empty()
    } else {
        text_of_first(spans, n - 1) + spans[n - 1].text@
    }
}

/// The text of all pieces, one after the other: what a terminal without
/// colours shows.
pub open spec fn printed(spans: Seq<Span>) -> Seq<char> {
    text_of_first(spans, spans.len() as int)
}

proof fn lemma_text_of_first(spans: Seq<Span>, span: Span, n: int)
    requires
        n <= spans.len(),
    ensures
        text_of_first(spans.push(span), n) == text_of_first(spans, n),
    decreases n,
{
    if n > 0 {
        lemma_text_of_first(spans, span, n - 1);
    }
}

/// Nothing prints as nothing, and a further piece adds its own text at the
/// end.
pub proof fn law_pieces_print_in_order(spans: Seq<Span>, span: Span)
    ensures
        printed(Seq::<Span>::empty()) == Seq::<char>::empty(),
        printed(spans.push(span)) == printed(spans) + span.text@,
{
    lemma_text_of_first(spans, span, spans.len() as int);
}

/// What the contents of a report say of its pieces.
pub proof fn lemma_pieces(report: Report)
    ensures
        report.out@.len() == report@.out.len(),
        forall|i: int|
            0 <= i < report.out@.len() ==> (#[trigger] report.out@[i]).style == report@.out[i].0
                && report.out@[i].text@ == report@.out[i].1,
{
    assert forall|i: int| 0 <= i < report.out@.len() implies (#[trigger] report.out@[i]).style
        == report@.out[i].0 && report.out@[i].text@ == report@.out[i].1 by {
        assert(report@.out[i] == report.out@[i]@);
    }
}

impl Report {
    pub fn new() -> (report: Report)
        ensures
            report@.out == Seq::<(Style, Seq<char>)>::empty(),
            report@.err == Seq::<char>::empty(),
    {
        let report = Report { out: Vec::new(), err: String::new() };
        assert(report@.out =~= Seq::<(Style, Seq<char>)>::empty());
        report
    }

    /// Appends a piece to standard output.
    pub fn say(&mut self, style: Style, text: &str)
        ensures
            final(self)@.out == old(self)@.out.push((style, text@)),
            final(self)@.err == old(self)@.err,
    {
        self.out.push(Span { style, text: text.to_string() });
        assert(self@.out =~= old(self)@.out.push((style, text@)));
    }

    /// Appends text to standard error.
    pub fn note(&mut self, text: &str)
        ensures
            final(self)@.out == old(self)@.out,
            final(self)@.err == old(self)@.err + text@,
    {
        self.err.append(text);
    }
}

} // verus!
