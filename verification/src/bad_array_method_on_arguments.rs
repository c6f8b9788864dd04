//! Detector: an array-only method is called directly on the implicit
//! argument-collection object, which is array-like but lacks those methods,
//! so the call would throw at run time.

use vstd::prelude::*;
use vstd::string::StringExecFns;

use crate::diagnostics::bad_method_message;
use crate::diagnostics::make_bad_method_message;
use crate::diagnostics::Diagnostic;
use crate::diagnostics::DiagnosticSink;
use crate::diagnostics::DiagnosticV;
use crate::diagnostics::Severity;
use crate::graph::Graph;
use crate::graph::KeyExpr;
use crate::graph::MemberAccess;
use crate::graph::Node;
use crate::graph::NodeKind;
use crate::graph::Role;
use crate::order::str_eq;
use crate::span::Span;
use crate::tables::in_array_vocab;
use crate::tables::is_array_method;

verus! {

/// The parent identity of node `i`, when it has one.
pub open spec fn parent_idx(nodes: Seq<Node>, i: int) -> Option<int> {
    if 0 <= i < nodes.len() {
        match nodes[i].parent {
            Some(p) => Some(p as int),
            None => None,
        }
    } else {
        None
    }
}

/// Whether the given position holds a call-expression node.
pub open spec fn is_call_at(nodes: Seq<Node>, at: Option<int>) -> bool {
    at matches Some(k) && 0 <= k < nodes.len() && nodes[k].kind matches NodeKind::Call { .. }
}

/// Whether node `i` is a reference to the reserved argument-collection
/// identifier.
pub open spec fn is_arguments_ref(nodes: Seq<Node>, i: int) -> bool {
    &&& 0 <= i < nodes.len()
    &&& nodes[i].kind matches NodeKind::IdentRef { name } && name@ == "arguments"@
}

/// Static resolution of a computed key: a string literal or a template
/// literal with no interpolation resolves; anything else does not.
pub open spec fn resolve_key(key: KeyExpr) -> Option<Seq<char>> {
    match key {
        KeyExpr::StrLit(s) => Some(s@),
        KeyExpr::TemplateNoSub(s) => Some(s@),
        KeyExpr::Dynamic => None,
    }
}

/// The remediation text attached to every finding of this detector.
pub open spec fn bad_method_help() -> Seq<char> {
    "Consider converting the 'arguments' object to a real array or using an ES6 rest parameter instead."@
}

/// The finding for a flagged method name at the given property-name span.
pub open spec fn bad_method_diag(name: Seq<char>, span: Span) -> DiagnosticV {
    DiagnosticV {
        severity: Severity::Warning,
        message: bad_method_message(name),
        span,
        labels: Seq::empty(),
        help: Some(bad_method_help()),
    }
}

/// The finding this detector owes for the property-access node `p` above an
/// argument-collection reference, if any.
///
/// A statically named access must itself be the callee of its parent call.
/// A computed access sits one layer deeper in the tree shape this engine
/// assumes, so the call is sought one ancestor level further up; its key
/// must also resolve statically to a literal name.
pub open spec fn bad_array_at_member(nodes: Seq<Node>, p: int) -> Option<DiagnosticV> {
    if 0 <= p < nodes.len() {
        match nodes[p].kind {
            NodeKind::Member { access: MemberAccess::Static { property, property_span } } => {
                if nodes[p].role == Role::Callee && is_call_at(nodes, parent_idx(nodes, p))
                    && in_array_vocab(property@) {
                    Some(bad_method_diag(property@, property_span))
                } else {
                    None
                }
            },
            NodeKind::ComputedMember { key, key_span } => {
                let call_pos = match parent_idx(nodes, p) {
                    Some(q) => parent_idx(nodes, q),
                    None => None,
                };
                if is_call_at(nodes, call_pos) {
                    match resolve_key(key) {
                        Some(name) => if in_array_vocab(name) {
                            Some(bad_method_diag(name, key_span))
                        } else {
                            None
                        },
                        None => None,
                    }
                } else {
                    None
                }
            },
            _ => None,
        }
    } else {
        None
    }
}

/// The finding this detector owes for node `i`, if any.
pub open spec fn bad_array_expected(nodes: Seq<Node>, i: int) -> Option<DiagnosticV> {
    if is_arguments_ref(nodes, i) {
        match parent_idx(nodes, i) {
            Some(p) => bad_array_at_member(nodes, p),
            None => None,
        }
    } else {
        None
    }
}

/// Flags calls of array-only methods directly on the implicit per-function
/// argument collection.
#[derive(Debug, Default, Clone)]
pub struct BadArrayMethodOnArguments;

impl BadArrayMethodOnArguments {
    /// The stable rule name used for configuration and suppression.
    pub fn name(&self) -> (n: &'static str)
        ensures
            n@ == "bad-array-method-on-arguments"@,
    {
        "bad-array-method-on-arguments"
    }

    /// The category label of this rule.
    pub fn category(&self) -> (c: &'static str)
        ensures
            c@ == "correctness"@,
    {
        "correctness"
    }

    /// The node kinds this detector wants to be invoked for.
    pub open spec fn spec_wants(kind: NodeKind) -> bool {
        kind matches NodeKind::IdentRef { .. }
    }

    pub fn wants(&self, kind: &NodeKind) -> (b: bool)
        ensures
            b == Self::spec_wants(*kind),
    {
        match kind {
            NodeKind::IdentRef { .. } => true,
            _ => false,
        }
    }

    /// A node of an uninteresting kind never yields a finding.
    pub proof fn lemma_unwanted_kind_no_diag(nodes: Seq<Node>, i: int)
        requires
            0 <= i < nodes.len(),
            !Self::spec_wants(nodes[i].kind),
        ensures
            bad_array_expected(nodes, i) is None,
    {
    }

    /// Inspect node `id` and push the owed finding, if there is one.
    pub fn run(&self, graph: &Graph, id: usize, sink: &mut DiagnosticSink)
        requires
            graph.wf(),
            id < graph@.len(),
        ensures
            (match bad_array_expected(graph@, id as int) {
                Some(dv) => final(sink)@ =~= old(sink)@.push(dv),
                None => final(sink)@ =~= old(sink)@,
            }),
    {
        let name_ok = match graph.kind_of(id) {
            NodeKind::IdentRef { name } => str_eq(name.as_str(), "arguments"),
            _ => false,
        };
        if !name_ok {
            return ;
        }
        let p = match graph.parent_of(id) {
            Some(p) => p,
            None => {
                return ;
            },
        };
        match graph.kind_of(p) {
            NodeKind::Member { access: MemberAccess::Static { property, property_span } } => {
                match graph.role_of(p) {
                    Role::Callee => {},
                    _ => {
                        return ;
                    },
                }
                let q = match graph.parent_of(p) {
                    Some(q) => q,
                    None => {
                        return ;
                    },
                };
                match graph.kind_of(q) {
                    NodeKind::Call { .. } => {},
                    _ => {
                        return ;
                    },
                }
                if is_array_method(property.as_str()) {
                    let message = make_bad_method_message(property.as_str());
                    let help = String::from_str(
                        "Consider converting the 'arguments' object to a real array or using an ES6 rest parameter instead.",
                    );
                    let d = Diagnostic::warning(message, *property_span).with_help(help);
                    sink.push(d);
                }
            },
            NodeKind::ComputedMember { key, key_span } => {
                let q = match graph.parent_of(p) {
                    Some(q) => q,
                    None => {
                        return ;
                    },
                };
                let r = match graph.parent_of(q) {
                    Some(r) => r,
                    None => {
                        return ;
                    },
                };
                match graph.kind_of(r) {
                    NodeKind::Call { .. } => {},
                    _ => {
                        return ;
                    },
                }
                let name = match key {
                    KeyExpr::StrLit(s) => s,
                    KeyExpr::TemplateNoSub(s) => s,
                    KeyExpr::Dynamic => {
                        return ;
                    },
                };
                if is_array_method(name.as_str()) {
                    let message = make_bad_method_message(name.as_str());
                    let help = String::from_str(
                        "Consider converting the 'arguments' object to a real array or using an ES6 rest parameter instead.",
                    );
                    let d = Diagnostic::warning(message, *key_span).with_help(help);
                    sink.push(d);
                }
            },
            _ => {},
        }
    }
}

/// A bare reference to the argument-collection identifier, with no property
/// access above it, never yields a finding.
pub proof fn lemma_bare_reference_not_flagged(nodes: Seq<Node>, i: int)
    requires
        is_arguments_ref(nodes, i),
        (parent_idx(nodes, i) matches Some(p) ==> !(nodes[p].kind matches NodeKind::Member { .. })
            && !(nodes[p].kind matches NodeKind::ComputedMember { .. })),
    ensures
        bad_array_expected(nodes, i) is None,
{
}

/// For a statically named access that is the callee of a call, a finding is
/// owed exactly when the property name is in the array-method vocabulary,
/// and its primary span is the property-name span.
pub proof fn lemma_static_access_flagged_iff_in_vocab(
    nodes: Seq<Node>,
    i: int,
    p: int,
    property: String,
    property_span: Span,
)
    requires
        is_arguments_ref(nodes, i),
        parent_idx(nodes, i) == Some(p),
        0 <= p < nodes.len(),
        nodes[p].kind == (NodeKind::Member {
            access: MemberAccess::Static { property, property_span },
        }),
        nodes[p].role == Role::Callee,
        is_call_at(nodes, parent_idx(nodes, p)),
    ensures
        in_array_vocab(property@) ==> bad_array_expected(nodes, i) == Some(
            bad_method_diag(property@, property_span),
        ),
        !in_array_vocab(property@) ==> bad_array_expected(nodes, i) is None,
{
}

/// For a computed access whose great-grandparent is a call, a finding is
/// owed exactly when the key resolves statically to a vocabulary member; a
/// key that is not a literal never yields one, whatever its runtime value.
pub proof fn lemma_computed_access_flagged_iff_resolvable(
    nodes: Seq<Node>,
    i: int,
    p: int,
    key: KeyExpr,
    key_span: Span,
)
    requires
        is_arguments_ref(nodes, i),
        parent_idx(nodes, i) == Some(p),
        0 <= p < nodes.len(),
        nodes[p].kind == (NodeKind::ComputedMember { key, key_span }),
        is_call_at(
            nodes,
            match parent_idx(nodes, p) {
                Some(q) => parent_idx(nodes, q),
                None => None,
            },
        ),
    ensures
        (resolve_key(key) matches Some(name) && in_array_vocab(name)) ==> bad_array_expected(
            nodes,
            i,
        ) == Some(bad_method_diag(resolve_key(key).unwrap(), key_span)),
        (resolve_key(key) matches Some(name) && !in_array_vocab(name)) ==> bad_array_expected(
            nodes,
            i,
        ) is None,
        resolve_key(key) is None ==> bad_array_expected(nodes, i) is None,
{
}

} // verus!
