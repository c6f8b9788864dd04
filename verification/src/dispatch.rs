//! Rule dispatch: one traversal pass that visits every node exactly once in
//! document order and invokes every registered detector interested in the
//! node's kind, accumulating findings in the shared sink.

use vstd::prelude::*;

use crate::bad_array_method_on_arguments::bad_array_expected;
use crate::bad_array_method_on_arguments::BadArrayMethodOnArguments;
use crate::diagnostics::Diagnostic;
use crate::diagnostics::DiagnosticSink;
use crate::diagnostics::DiagnosticV;
use crate::graph::Graph;
use crate::graph::Node;
use crate::uninvoked_array_callback::uninvoked_expected;
use crate::uninvoked_array_callback::UninvokedArrayCallback;

verus! {

/// One registered detector.
#[derive(Debug, Clone)]
pub enum Detector {
    BadArrayMethod(BadArrayMethodOnArguments),
    UninvokedCallback(UninvokedArrayCallback),
}

impl Detector {
    /// The finding this detector owes for node `i`, if any.
    pub open spec fn spec_expected(self, nodes: Seq<Node>, i: int) -> Option<DiagnosticV> {
        match self {
            Detector::BadArrayMethod(_) => bad_array_expected(nodes, i),
            Detector::UninvokedCallback(_) => uninvoked_expected(nodes, i),
        }
    }

    /// Whether this detector declares interest in the given node's kind.
    pub open spec fn spec_wants(self, nodes: Seq<Node>, i: int) -> bool {
        match self {
            Detector::BadArrayMethod(_) => BadArrayMethodOnArguments::spec_wants(nodes[i].kind),
            Detector::UninvokedCallback(_) => UninvokedArrayCallback::spec_wants(nodes[i].kind),
        }
    }

    /// The stable rule name of this detector.
    pub fn name(&self) -> (n: &'static str)
        ensures
            (self matches Detector::BadArrayMethod(_) ==> n@ == "bad-array-method-on-arguments"@),
            (self matches Detector::UninvokedCallback(_) ==> n@ == "uninvoked-array-callback"@),
    {
        match self {
            Detector::BadArrayMethod(r) => r.name(),
            Detector::UninvokedCallback(r) => r.name(),
        }
    }

    /// Invoke this detector on node `id` when it is interested; push the
    /// owed finding, if any.
    pub fn run(&self, graph: &Graph, id: usize, sink: &mut DiagnosticSink)
        requires
            graph.wf(),
            id < graph@.len(),
        ensures
            (match self.spec_expected(graph@, id as int) {
                Some(dv) => final(sink)@ =~= old(sink)@.push(dv),
                None => final(sink)@ =~= old(sink)@,
            }),
    {
        match self {
            Detector::BadArrayMethod(r) => {
                if r.wants(graph.kind_of(id)) {
                    r.run(graph, id, sink);
                } else {
                    proof {
                        BadArrayMethodOnArguments::lemma_unwanted_kind_no_diag(
                            graph@,
                            id as int,
                        );
                    }
                }
            },
            Detector::UninvokedCallback(r) => {
                if r.wants(graph.kind_of(id)) {
                    r.run(graph, id, sink);
                } else {
                    proof {
                        UninvokedArrayCallback::lemma_unwanted_kind_no_diag(graph@, id as int);
                    }
                }
            },
        }
    }
}

/// The findings owed for node `i` by the first `j` registered detectors, in
/// registration order.
pub open spec fn node_diags_upto(
    nodes: Seq<Node>,
    detectors: Seq<Detector>,
    i: int,
    j: int,
) -> Seq<DiagnosticV>
    decreases j,
{
    if j <= 0 {
        Seq::empty()
    } else {
        node_diags_upto(nodes, detectors, i, j - 1) + (match detectors[j - 1].spec_expected(
            nodes,
            i,
        ) {
            Some(dv) => seq![dv],
            None => Seq::empty(),
        })
    }
}

/// The findings owed for node `i` by all registered detectors.
pub open spec fn node_diags(nodes: Seq<Node>, detectors: Seq<Detector>, i: int) -> Seq<
    DiagnosticV,
> {
    node_diags_upto(nodes, detectors, i, detectors.len() as int)
}

/// The findings owed for the first `n` nodes, in document order.
pub open spec fn diags_upto(nodes: Seq<Node>, detectors: Seq<Detector>, n: int) -> Seq<DiagnosticV>
    decreases n,
{
    if n <= 0 {
        Seq::empty()
    } else {
        diags_upto(nodes, detectors, n - 1) + node_diags(nodes, detectors, n - 1)
    }
}

/// Everything the registered detectors owe for the whole graph.
pub open spec fn dispatch_diags(nodes: Seq<Node>, detectors: Seq<Detector>) -> Seq<DiagnosticV> {
    diags_upto(nodes, detectors, nodes.len() as int)
}

/// Visit every node exactly once, in document order, and invoke every
/// registered detector on it, in registration order.
pub fn run_detectors(graph: &Graph, detectors: &Vec<Detector>, sink: &mut DiagnosticSink)
    requires
        graph.wf(),
    ensures
        final(sink)@ =~= old(sink)@ + dispatch_diags(graph@, detectors@),
{
    let n = graph.len();
    let mut i: usize = 0;
    while i < n
        invariant
            graph.wf(),
            i <= n,
            n == graph@.len(),
            sink@ =~= old(sink)@ + diags_upto(graph@, detectors@, i as int),
        decreases n - i,
    {
        let m = detectors.len();
        let mut j: usize = 0;
        while j < m
            invariant
                graph.wf(),
                i < n,
                n == graph@.len(),
                j <= m,
                m == detectors@.len(),
                sink@ =~= old(sink)@ + diags_upto(graph@, detectors@, i as int)
                    + node_diags_upto(graph@, detectors@, i as int, j as int),
            decreases m - j,
        {
            detectors[j].run(graph, i, sink);
            j = j + 1;
        }
        proof {
            assert(node_diags_upto(graph@, detectors@, i as int, m as int) == node_diags(
                graph@,
                detectors@,
                i as int,
            ));
        }
        i = i + 1;
    }
}

/// The default registry: both anti-pattern rules, in a fixed order.
pub fn default_detectors() -> (d: Vec<Detector>)
    ensures
        d@ =~= seq![
            Detector::BadArrayMethod(BadArrayMethodOnArguments),
            Detector::UninvokedCallback(UninvokedArrayCallback),
        ],
{
    let mut d: Vec<Detector> = Vec::new();
    d.push(Detector::BadArrayMethod(BadArrayMethodOnArguments));
    d.push(Detector::UninvokedCallback(UninvokedArrayCallback));
    d
}

/// Everything the engine owes for a graph under the default registry.
pub open spec fn engine_diags(nodes: Seq<Node>) -> Seq<DiagnosticV> {
    dispatch_diags(
        nodes,
        seq![
            Detector::BadArrayMethod(BadArrayMethodOnArguments),
            Detector::UninvokedCallback(UninvokedArrayCallback),
        ],
    )
}

/// Analyze one file's graph with the default registry and hand back the
/// findings, in document order.
pub fn analyze(graph: &Graph) -> (diags: Vec<Diagnostic>)
    requires
        graph.wf(),
    ensures
        diags@.map_values(|d: Diagnostic| d@) =~= engine_diags(graph@),
{
    let detectors = default_detectors();
    let mut sink = DiagnosticSink::new();
    run_detectors(graph, &detectors, &mut sink);
    sink.into_vec()
}

/// The engine is deterministic and stateless: its findings are a function
/// of the graph alone, so running it twice over the same unmodified graph
/// yields an identical diagnostic sequence.
pub proof fn lemma_rerun_yields_identical_diagnostics(
    nodes: Seq<Node>,
    first: Seq<DiagnosticV>,
    second: Seq<DiagnosticV>,
)
    requires
        first == engine_diags(nodes),
        second == engine_diags(nodes),
    ensures
        first == second,
{
}

} // verus!
