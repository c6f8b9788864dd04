//! Detector: a callback-bearing array method is invoked on an array built
//! by the constructor with a single numeric length, which holds only empty
//! slots, so the callback can never run.

use vstd::prelude::*;
use vstd::string::StringExecFns;

use crate::bad_array_method_on_arguments::is_call_at;
use crate::bad_array_method_on_arguments::parent_idx;
use crate::diagnostics::Diagnostic;
use crate::diagnostics::DiagnosticSink;
use crate::diagnostics::DiagnosticV;
use crate::diagnostics::LabeledSpanV;
use crate::diagnostics::Severity;
use crate::graph::ArgShape;
use crate::graph::Graph;
use crate::graph::MemberAccess;
use crate::graph::Node;
use crate::graph::NodeKind;
use crate::graph::Role;
use crate::order::str_eq;
use crate::span::Span;

verus! {

/// Whether node `i` is `new Array(<n>)`: the construction of an array from a
/// single numeric-literal length.
pub open spec fn is_empty_slot_array_new(nodes: Seq<Node>, i: int) -> bool {
    &&& 0 <= i < nodes.len()
    &&& nodes[i].kind matches NodeKind::New { callee, args } && callee matches Some(name)
        && name@ == "Array"@ && args@.len() == 1 && args@[0] == ArgShape::Numeric
}

/// Whether the call at `at` passes a function or arrow expression as its
/// first argument.
pub open spec fn call_with_callback_at(nodes: Seq<Node>, at: Option<int>) -> bool {
    &&& is_call_at(nodes, at)
    &&& at matches Some(k) && nodes[k].kind matches NodeKind::Call { args } && args@.len() >= 1 && (
    args@[0] == ArgShape::Function || args@[0] == ArgShape::Arrow)
}

/// The span a property access presents as the callback-bearing position:
/// the property name, the computed key expression, or the private field.
pub open spec fn access_property_span(access: MemberAccess) -> Span {
    match access {
        MemberAccess::Static { property_span, .. } => property_span,
        MemberAccess::Computed { key_span } => key_span,
        MemberAccess::PrivateField { field_span } => field_span,
    }
}

/// The help text attached to every finding of this detector.
pub open spec fn uninvoked_help() -> Seq<char> {
    "Consider filling the array with `undefined` values using `Array.prototype.fill()`"@
}

/// The finding for a never-invoked callback: two labeled spans, one on the
/// callback-bearing property, one on the array construction.
pub open spec fn uninvoked_diag(cb_span: Span, arr_span: Span) -> DiagnosticV {
    DiagnosticV {
        severity: Severity::Warning,
        message: "Uninvoked array callback"@,
        span: cb_span,
        labels: seq![
            LabeledSpanV { span: cb_span, label: "never invoked"@ },
            LabeledSpanV { span: arr_span, label: "only empty slots"@ },
        ],
        help: Some(uninvoked_help()),
    }
}

/// The finding this detector owes for node `i`, if any.
///
/// The construction must be the object of the property access directly
/// above it.  For a generic property-access parent the call is its parent;
/// for the distinct computed-member parent the call is sought one ancestor
/// level further up, matching the tree shape this engine assumes.
pub open spec fn uninvoked_expected(nodes: Seq<Node>, i: int) -> Option<DiagnosticV> {
    if is_empty_slot_array_new(nodes, i) && nodes[i].role == Role::Object {
        match parent_idx(nodes, i) {
            Some(p) => match nodes[p].kind {
                NodeKind::Member { access } => {
                    if call_with_callback_at(nodes, parent_idx(nodes, p)) {
                        Some(uninvoked_diag(access_property_span(access), nodes[i].span))
                    } else {
                        None
                    }
                },
                NodeKind::ComputedMember { key_span, .. } => {
                    let call_pos = match parent_idx(nodes, p) {
                        Some(q) => parent_idx(nodes, q),
                        None => None,
                    };
                    if call_with_callback_at(nodes, call_pos) {
                        Some(uninvoked_diag(key_span, nodes[i].span))
                    } else {
                        None
                    }
                },
                _ => None,
            },
            None => None,
        }
    } else {
        None
    }
}

/// Flags callback-bearing array methods invoked on an array constructed
/// with a single numeric length.
#[derive(Debug, Default, Clone)]
pub struct UninvokedArrayCallback;

impl UninvokedArrayCallback {
    /// The stable rule name used for configuration and suppression.
    pub fn name(&self) -> (n: &'static str)
        ensures
            n@ == "uninvoked-array-callback"@,
    {
        "uninvoked-array-callback"
    }

    /// The category label of this rule.
    pub fn category(&self) -> (c: &'static str)
        ensures
            c@ == "correctness"@,
    {
        "correctness"
    }

    /// The node kinds this detector wants to be invoked for.
    pub open spec fn spec_wants(kind: NodeKind) -> bool {
        kind matches NodeKind::New { .. }
    }

    pub fn wants(&self, kind: &NodeKind) -> (b: bool)
        ensures
            b == Self::spec_wants(*kind),
    {
        match kind {
            NodeKind::New { .. } => true,
            _ => false,
        }
    }

    /// A node of an uninteresting kind never yields a finding.
    pub proof fn lemma_unwanted_kind_no_diag(nodes: Seq<Node>, i: int)
        requires
            0 <= i < nodes.len(),
            !Self::spec_wants(nodes[i].kind),
        ensures
            uninvoked_expected(nodes, i) is None,
    {
    }

    /// Inspect node `id` and push the owed finding, if there is one.
    pub fn run(&self, graph: &Graph, id: usize, sink: &mut DiagnosticSink)
        requires
            graph.wf(),
            id < graph@.len(),
        ensures
            (match uninvoked_expected(graph@, id as int) {
                Some(dv) => final(sink)@ =~= old(sink)@.push(dv),
                None => final(sink)@ =~= old(sink)@,
            }),
    {
        let shape_ok = match graph.kind_of(id) {
            NodeKind::New { callee: Some(name), args } => {
                str_eq(name.as_str(), "Array") && args.len() == 1 && matches_numeric(&args[0])
            },
            _ => false,
        };
        if !shape_ok {
            return ;
        }
        match graph.role_of(id) {
            Role::Object => {},
            _ => {
                return ;
            },
        }
        let p = match graph.parent_of(id) {
            Some(p) => p,
            None => {
                return ;
            },
        };
        match graph.kind_of(p) {
            NodeKind::Member { access } => {
                let q = match graph.parent_of(p) {
                    Some(q) => q,
                    None => {
                        return ;
                    },
                };
                if !call_has_callback(graph, q) {
                    return ;
                }
                let cb_span = match access {
                    MemberAccess::Static { property_span, .. } => *property_span,
                    MemberAccess::Computed { key_span } => *key_span,
                    MemberAccess::PrivateField { field_span } => *field_span,
                };
                push_uninvoked(sink, cb_span, graph.span_of(id));
            },
            NodeKind::ComputedMember { key_span, .. } => {
                let q = match graph.parent_of(p) {
                    Some(q) => q,
                    None => {
                        return ;
                    },
                };
                let r = match graph.parent_of(q) {
                    Some(r) => r,
                    None => {
                        return ;
                    },
                };
                if !call_has_callback(graph, r) {
                    return ;
                }
                push_uninvoked(sink, *key_span, graph.span_of(id));
            },
            _ => {},
        }
    }
}

/// Whether one argument summary is a numeric literal.
fn matches_numeric(a: &ArgShape) -> (b: bool)
    ensures
        b == (*a == ArgShape::Numeric),
{
    match a {
        ArgShape::Numeric => true,
        _ => false,
    }
}

/// Whether node `k` is a call whose first argument is a function or arrow
/// expression.
fn call_has_callback(graph: &Graph, k: usize) -> (b: bool)
    requires
        k < graph@.len(),
    ensures
        b == call_with_callback_at(graph@, Some(k as int)),
{
    match graph.kind_of(k) {
        NodeKind::Call { args } => {
            if args.len() >= 1 {
                match args[0] {
                    ArgShape::Function => true,
                    ArgShape::Arrow => true,
                    _ => false,
                }
            } else {
                false
            }
        },
        _ => false,
    }
}

/// Build and record the two-label finding of this detector.
fn push_uninvoked(sink: &mut DiagnosticSink, cb_span: Span, arr_span: Span)
    ensures
        final(sink)@ =~= old(sink)@.push(uninvoked_diag(cb_span, arr_span)),
{
    let message = String::from_str("Uninvoked array callback");
    let help = String::from_str(
        "Consider filling the array with `undefined` values using `Array.prototype.fill()`",
    );
    let d = Diagnostic::warning(message, cb_span).with_help(help).with_label(
        cb_span,
        String::from_str("never invoked"),
    ).with_label(arr_span, String::from_str("only empty slots"));
    proof {
        assert(d@ =~= uninvoked_diag(cb_span, arr_span));
    }
    sink.push(d);
}

/// A construction with two or more constructor arguments, or whose single
/// argument is not a numeric literal, never yields a finding.
pub proof fn lemma_real_elements_not_flagged(nodes: Seq<Node>, i: int)
    requires
        0 <= i < nodes.len(),
        (nodes[i].kind matches NodeKind::New { callee, args } ==> args@.len() != 1 || args@[0]
            != ArgShape::Numeric),
    ensures
        uninvoked_expected(nodes, i) is None,
{
}

/// For `new Array(<n>)` standing as the object of a property access whose
/// call passes a function or arrow callback first, exactly the two-label
/// finding is owed; when the call bears no such callback, none is.
pub proof fn lemma_empty_slot_callback_flagged(
    nodes: Seq<Node>,
    i: int,
    p: int,
    access: MemberAccess,
)
    requires
        is_empty_slot_array_new(nodes, i),
        nodes[i].role == Role::Object,
        parent_idx(nodes, i) == Some(p),
        0 <= p < nodes.len(),
        nodes[p].kind == (NodeKind::Member { access }),
    ensures
        call_with_callback_at(nodes, parent_idx(nodes, p)) ==> uninvoked_expected(nodes, i)
            == Some(uninvoked_diag(access_property_span(access), nodes[i].span)),
        !call_with_callback_at(nodes, parent_idx(nodes, p)) ==> uninvoked_expected(nodes, i)
            is None,
{
}

} // verus!
