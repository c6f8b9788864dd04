//! Diagnostics: immutable findings with a severity, a message, a primary
//! span, optional labeled secondary spans and optional help text, collected
//! in insertion order by a sink scoped to one analysis run.

use vstd::prelude::*;
use vstd::string::StringExecFns;

use crate::span::Span;

verus! {

/// How serious a finding is.  The detectors of this engine only warn.
#[derive(Clone, Copy, Debug, PartialEq, Eq, Structural)]
pub enum Severity {
    Warning,
}

/// A span together with free text explaining its role in the finding.
#[derive(Clone, Debug, PartialEq)]
pub struct LabeledSpan {
    pub span: Span,
    pub label: String,
}

/// The abstract value of a labeled span.
#[verifier::ext_equal]
pub struct LabeledSpanV {
    pub span: Span,
    pub label: Seq<char>,
}

impl View for LabeledSpan {
    type V = LabeledSpanV;

    open spec fn view(&self) -> LabeledSpanV {
        LabeledSpanV { span: self.span, label: self.label@ }
    }
}

/// One finding: immutable once constructed.
#[derive(Clone, Debug, PartialEq)]
pub struct Diagnostic {
    pub severity: Severity,
    pub message: String,
    pub span: Span,
    pub labels: Vec<LabeledSpan>,
    pub help: Option<String>,
}

/// The abstract value of a diagnostic.
#[verifier::ext_equal]
pub struct DiagnosticV {
    pub severity: Severity,
    pub message: Seq<char>,
    pub span: Span,
    pub labels: Seq<LabeledSpanV>,
    pub help: Option<Seq<char>>,
}

impl View for Diagnostic {
    type V = DiagnosticV;

    open spec fn view(&self) -> DiagnosticV {
        DiagnosticV {
            severity: self.severity,
            message: self.message@,
            span: self.span,
            labels: self.labels@.map_values(|l: LabeledSpan| l@),
            help: match self.help {
                Some(h) => Some(h@),
                None => None,
            },
        }
    }
}

impl Diagnostic {
    /// A warning with a message and a primary span, no labels, no help.
    pub fn warning(message: String, span: Span) -> (d: Diagnostic)
        ensures
            d@ =~= (DiagnosticV {
                severity: Severity::Warning,
                message: message@,
                span,
                labels: Seq::empty(),
                help: None,
            }),
    {
        Diagnostic { severity: Severity::Warning, message, span, labels: Vec::new(), help: None }
    }

    /// The same diagnostic with help text attached.
    pub fn with_help(self, help: String) -> (d: Diagnostic)
        ensures
            d@ =~= (DiagnosticV { help: Some(help@), ..self@ }),
    {
        Diagnostic { help: Some(help), ..self }
    }

    /// The same diagnostic with one more labeled span appended.
    pub fn with_label(self, span: Span, label: String) -> (d: Diagnostic)
        ensures
            d@ =~= (DiagnosticV {
                labels: self@.labels.push(LabeledSpanV { span, label: label@ }),
                ..self@
            }),
    {
        let mut labels = self.labels;
        labels.push(LabeledSpan { span, label });
        proof {
            assert(labels@.map_values(|l: LabeledSpan| l@) =~= self@.labels.push(
                LabeledSpanV { span, label: label@ },
            ));
        }
        Diagnostic { labels, ..self }
    }
}

/// The diagnostic sink of one analysis run: an insertion-order collection
/// that detectors push findings into.
#[derive(Debug)]
pub struct DiagnosticSink {
    diags: Vec<Diagnostic>,
}

impl DiagnosticSink {
    /// The findings collected so far, in insertion order.
    pub closed spec fn view(&self) -> Seq<DiagnosticV> {
        self.diags@.map_values(|d: Diagnostic| d@)
    }

    /// An empty sink.
    pub fn new() -> (s: DiagnosticSink)
        ensures
            s@ =~= Seq::<DiagnosticV>::empty(),
    {
        let s = DiagnosticSink { diags: Vec::new() };
        proof {
            assert(s@ =~= Seq::<DiagnosticV>::empty());
        }
        s
    }

    /// Record one finding.
    pub fn push(&mut self, d: Diagnostic)
        ensures
            final(self)@ =~= old(self)@.push(d@),
    {
        let ghost dv = d@;
        self.diags.push(d);
        proof {
            assert(self@ =~= old(self)@.push(dv));
        }
    }

    /// The number of findings collected.
    pub fn len(&self) -> (n: usize)
        ensures
            n == self@.len(),
    {
        self.diags.len()
    }

    /// Hand the findings to the caller, consuming the sink.
    pub fn into_vec(self) -> (v: Vec<Diagnostic>)
        ensures
            v@.map_values(|d: Diagnostic| d@) == self@,
    {
        self.diags
    }

    /// Read one finding.
    pub fn get(&self, i: usize) -> (d: &Diagnostic)
        requires
            i < self@.len(),
        ensures
            d@ == self@[i as int],
    {
        &self.diags[i]
    }
}

/// Builds the message naming the array method that the argument-collection
/// object lacks.
pub open spec fn bad_method_message(name: Seq<char>) -> Seq<char> {
    "The 'arguments' object does not have a '"@ + name + "' method"@
}

/// Executable construction of the same message.
pub fn make_bad_method_message(name: &str) -> (m: String)
    ensures
        m@ == bad_method_message(name@),
{
    String::from_str("The 'arguments' object does not have a '").concat(name).concat("' method")
}

} // verus!
