//! Diagnostics: the findings of an analysis, as data.
//!
//! A diagnostic is never raised as an error. It is built by a rule and
//! appended to a sink that the caller owns.

use vstd::prelude::*;
use vstd::string::StringExecFns;
use crate::syntax::Span;

verus! {

/// How serious a diagnostic is.
#[derive(Clone, Copy, Debug, PartialEq, Eq, Structural)]
pub enum Severity {
    /// The finding is an error.
    Error,
    /// The finding is a warning.
    Warning,
    /// The finding is a note.
    Note,
}

/// What a label says: a text about a range of the source.
pub struct LabelView {
    pub message: Seq<char>,
    pub span: Span,
}

/// What a diagnostic says.
pub struct DiagnosticView {
    pub severity: Severity,
    pub rule: Option<Seq<char>>,
    pub message: Seq<char>,
    pub labels: Seq<LabelView>,
    pub fix: Option<Seq<char>>,
}

impl DiagnosticView {
    /// A diagnostic of the given severity and message with no rule, no
    /// label and no fix.
    pub open spec fn bare(severity: Severity, message: Seq<char>) -> DiagnosticView {
        DiagnosticView { severity, rule: None, message, labels: Seq::empty(), fix: None }
    }

    /// The diagnostic with the rule set.
    pub open spec fn with_rule(self, rule: Seq<char>) -> DiagnosticView {
        DiagnosticView { rule: Some(rule), ..self }
    }

    /// The diagnostic with one more label, after those it has.
    pub open spec fn with_label(self, message: Seq<char>, span: Span) -> DiagnosticView {
        DiagnosticView { labels: self.labels.push(LabelView { message, span }), ..self }
    }

    /// The diagnostic with the fix set.
    pub open spec fn with_fix(self, fix: Seq<char>) -> DiagnosticView {
        DiagnosticView { fix: Some(fix), ..self }
    }
}

/// A text about a range of the source.
#[derive(Debug)]
pub struct Label {
    message: String,
    span: Span,
}

impl View for Label {
    type V = LabelView;

    closed spec fn view(&self) -> LabelView {
        LabelView { message: self.message@, span: self.span }
    }
}

impl Label {
    /// Gets the text of the label.
    pub fn message(&self) -> (r: &str)
        ensures
            r@ == self@.message,
    {
        self.message.as_str()
    }

    /// Gets the range of the source that the label is about.
    pub fn span(&self) -> (r: Span)
        ensures
            r == self@.span,
    {
        self.span
    }
}

/// A finding: a severity, a message, the rule that found it, labelled
/// ranges of the source and a suggested fix.
#[derive(Debug)]
pub struct Diagnostic {
    severity: Severity,
    rule: Option<String>,
    message: String,
    labels: Vec<Label>,
    fix: Option<String>,
}

/// The characters of an optional string.
pub open spec fn text_of(text: Option<String>) -> Option<Seq<char>> {
    match text {
        Some(text) => Some(text@),
        None => None,
    }
}

/// The characters of an optional string slice.
pub open spec fn slice_of(text: Option<&str>) -> Option<Seq<char>> {
    match text {
        Some(text) => Some(text@),
        None => None,
    }
}

impl View for Diagnostic {
    type V = DiagnosticView;

    closed spec fn view(&self) -> DiagnosticView {
        DiagnosticView {
            severity: self.severity,
            rule: text_of(self.rule),
            message: self.message@,
            labels: self.labels@.map_values(|label: Label| label@),
            fix: text_of(self.fix),
        }
    }
}

impl Diagnostic {
    /// Makes a diagnostic of the given severity and message.
    fn bare(severity: Severity, message: String) -> (r: Diagnostic)
        ensures
            r@ == DiagnosticView::bare(severity, message@),
    {
        let r = Diagnostic { severity, rule: None, message, labels: Vec::new(), fix: None };
        proof {
            assert(r.labels@.map_values(|label: Label| label@) =~= Seq::<LabelView>::empty());
        }
        r
    }

    /// Makes an error with the given message.
    pub fn error(message: String) -> (r: Diagnostic)
        ensures
            r@ == DiagnosticView::bare(Severity::Error, message@),
    {
        Self::bare(Severity::Error, message)
    }

    /// Makes a warning with the given message.
    pub fn warning(message: String) -> (r: Diagnostic)
        ensures
            r@ == DiagnosticView::bare(Severity::Warning, message@),
    {
        Self::bare(Severity::Warning, message)
    }

    /// Makes a note with the given message.
    pub fn note(message: String) -> (r: Diagnostic)
        ensures
            r@ == DiagnosticView::bare(Severity::Note, message@),
    {
        Self::bare(Severity::Note, message)
    }

    /// Sets the rule that found the diagnostic.
    pub fn with_rule(self, rule: &str) -> (r: Diagnostic)
        ensures
            r@ == self@.with_rule(rule@),
    {
        Diagnostic {
            severity: self.severity,
            rule: Some(String::from_str(rule)),
            message: self.message,
            labels: self.labels,
            fix: self.fix,
        }
    }

    /// Adds a label after those that the diagnostic has.
    pub fn with_label(self, message: &str, span: Span) -> (r: Diagnostic)
        ensures
            r@ == self@.with_label(message@, span),
    {
        let ghost before = self.labels@;
        let mut labels = self.labels;
        let label = Label { message: String::from_str(message), span };
        labels.push(label);
        proof {
            assert(labels@.map_values(|label: Label| label@) =~= before.map_values(
                |label: Label| label@,
            ).push(label@));
        }
        Diagnostic {
            severity: self.severity,
            rule: self.rule,
            message: self.message,
            labels,
            fix: self.fix,
        }
    }

    /// Sets the fix that the diagnostic suggests.
    pub fn with_fix(self, fix: &str) -> (r: Diagnostic)
        ensures
            r@ == self@.with_fix(fix@),
    {
        Diagnostic {
            severity: self.severity,
            rule: self.rule,
            message: self.message,
            labels: self.labels,
            fix: Some(String::from_str(fix)),
        }
    }

    /// Gets the severity of the diagnostic.
    pub fn severity(&self) -> (r: Severity)
        ensures
            r == self@.severity,
    {
        self.severity
    }

    /// Gets the rule that found the diagnostic, if one is set.
    pub fn rule(&self) -> (r: Option<&str>)
        ensures
            slice_of(r) == self@.rule,
    {
        match &self.rule {
            Some(rule) => Some(rule.as_str()),
            None => None,
        }
    }

    /// Gets the message of the diagnostic.
    pub fn message(&self) -> (r: &str)
        ensures
            r@ == self@.message,
    {
        self.message.as_str()
    }

    /// Gets the number of labels of the diagnostic.
    pub fn label_count(&self) -> (r: usize)
        ensures
            r == self@.labels.len(),
    {
        self.labels.len()
    }

    /// Gets the label of the given index.
    pub fn label(&self, index: usize) -> (r: &Label)
        requires
            index < self@.labels.len(),
        ensures
            r@ == self@.labels[index as int],
    {
        &self.labels[index]
    }

    /// Gets the fix that the diagnostic suggests, if one is set.
    pub fn fix(&self) -> (r: Option<&str>)
        ensures
            slice_of(r) == self@.fix,
    {
        match &self.fix {
            Some(fix) => Some(fix.as_str()),
            None => None,
        }
    }
}

/// A sink of diagnostics, in the order in which they were added.
#[derive(Debug)]
pub struct Diagnostics {
    items: Vec<Diagnostic>,
}

impl View for Diagnostics {
    type V = Seq<DiagnosticView>;

    closed spec fn view(&self) -> Seq<DiagnosticView> {
        self.items@.map_values(|item: Diagnostic| item@)
    }
}

impl Diagnostics {
    /// Makes an empty sink.
    pub fn new() -> (r: Diagnostics)
        ensures
            r@ == Seq::<DiagnosticView>::empty(),
    {
        let r = Diagnostics { items: Vec::new() };
        proof {
            assert(r@ =~= Seq::<DiagnosticView>::empty());
        }
        r
    }

    /// Appends a diagnostic to the sink.
    pub fn add(&mut self, diagnostic: Diagnostic)
        ensures
            final(self)@ == old(self)@.push(diagnostic@),
    {
        self.items.push(diagnostic);
        proof {
            assert(self@ =~= old(self)@.push(diagnostic@));
        }
    }

    /// Gets the number of diagnostics in the sink.
    pub fn len(&self) -> (r: usize)
        ensures
            r == self@.len(),
    {
        self.items.len()
    }

    /// Gets whether the sink holds no diagnostic.
    pub fn is_empty(&self) -> (r: bool)
        ensures
            r == (self@.len() == 0),
    {
        self.items.len() == 0
    }

    /// Gets the diagnostic of the given index.
    pub fn get(&self, index: usize) -> (r: &Diagnostic)
        requires
            index < self@.len(),
        ensures
            r@ == self@[index as int],
    {
        &self.items[index]
    }
}

} // verus!
