//! End-to-end engine tests: dispatch order, determinism, and the standard
//! scenarios.

use astlint::analyze;
use astlint::default_detectors;
use astlint::BadArrayMethodOnArguments;
use astlint::UninvokedArrayCallback;
use astlint::run_detectors;
use astlint::ArgShape;
use astlint::DiagnosticSink;
use astlint::Graph;
use astlint::KeyExpr;
use astlint::MemberAccess;
use astlint::NodeKind;
use astlint::Role;
use astlint::Span;

fn sp(a: u32, b: u32) -> Span {
    Span::new(a, b)
}

/// `function fn() {arguments.map(() => {})}`
fn arguments_map_static() -> Graph {
    let mut g = Graph::new(NodeKind::Program, sp(0, 39));
    let f = g.push(0, Role::Child, NodeKind::Function, sp(0, 39));
    let st = g.push(f, Role::Child, NodeKind::Statement, sp(15, 38));
    let call = g.push(st, Role::Child, NodeKind::Call { args: vec![ArgShape::Arrow] }, sp(15, 38));
    let member = g.push(
        call,
        Role::Callee,
        NodeKind::Member {
            access: MemberAccess::Static {
                property: "map".to_string(),
                property_span: sp(25, 28),
            },
        },
        sp(15, 28),
    );
    g.push(member, Role::Object, NodeKind::IdentRef { name: "arguments".to_string() }, sp(15, 24));
    g.push(call, Role::Argument, NodeKind::Arrow, sp(29, 37));
    g
}

/// `function fn() {arguments['map'](() => {})}`
fn arguments_map_computed() -> Graph {
    let mut g = Graph::new(NodeKind::Program, sp(0, 42));
    let f = g.push(0, Role::Child, NodeKind::Function, sp(0, 42));
    let st = g.push(f, Role::Child, NodeKind::Statement, sp(15, 41));
    let call = g.push(st, Role::Child, NodeKind::Call { args: vec![ArgShape::Arrow] }, sp(15, 41));
    let wrapper = g.push(
        call,
        Role::Callee,
        NodeKind::Member { access: MemberAccess::Computed { key_span: sp(25, 30) } },
        sp(15, 31),
    );
    let computed = g.push(
        wrapper,
        Role::Child,
        NodeKind::ComputedMember {
            key: KeyExpr::StrLit("map".to_string()),
            key_span: sp(25, 30),
        },
        sp(15, 31),
    );
    g.push(computed, Role::Object, NodeKind::IdentRef { name: "arguments".to_string() }, sp(15, 24));
    g.push(call, Role::Argument, NodeKind::Arrow, sp(32, 40));
    g
}

/// `const list = new Array(5).map(_ => {})`
fn empty_slot_map() -> Graph {
    let mut g = Graph::new(NodeKind::Program, sp(0, 38));
    let st = g.push(0, Role::Child, NodeKind::Statement, sp(0, 38));
    let call = g.push(st, Role::Child, NodeKind::Call { args: vec![ArgShape::Arrow] }, sp(13, 38));
    let member = g.push(
        call,
        Role::Callee,
        NodeKind::Member {
            access: MemberAccess::Static {
                property: "map".to_string(),
                property_span: sp(26, 29),
            },
        },
        sp(13, 29),
    );
    let ctor = g.push(
        member,
        Role::Object,
        NodeKind::New { callee: Some("Array".to_string()), args: vec![ArgShape::Numeric] },
        sp(13, 25),
    );
    g.push(ctor, Role::Argument, NodeKind::NumericLit, sp(23, 24));
    g.push(call, Role::Argument, NodeKind::Arrow, sp(30, 37));
    g
}

/// `const list = new Array(5).fill().map(_ => {})`
fn empty_slot_fill_map() -> Graph {
    let mut g = Graph::new(NodeKind::Program, sp(0, 45));
    let st = g.push(0, Role::Child, NodeKind::Statement, sp(0, 45));
    let call = g.push(st, Role::Child, NodeKind::Call { args: vec![ArgShape::Arrow] }, sp(13, 45));
    let member = g.push(
        call,
        Role::Callee,
        NodeKind::Member {
            access: MemberAccess::Static {
                property: "map".to_string(),
                property_span: sp(33, 36),
            },
        },
        sp(13, 36),
    );
    let fill_call = g.push(member, Role::Object, NodeKind::Call { args: vec![] }, sp(13, 32));
    let fill_member = g.push(
        fill_call,
        Role::Callee,
        NodeKind::Member {
            access: MemberAccess::Static {
                property: "fill".to_string(),
                property_span: sp(26, 30),
            },
        },
        sp(13, 30),
    );
    let ctor = g.push(
        fill_member,
        Role::Object,
        NodeKind::New { callee: Some("Array".to_string()), args: vec![ArgShape::Numeric] },
        sp(13, 25),
    );
    g.push(ctor, Role::Argument, NodeKind::NumericLit, sp(23, 24));
    g.push(call, Role::Argument, NodeKind::Arrow, sp(37, 44));
    g
}

#[test]
fn scenario_static_map_on_arguments() {
    let found = analyze(&arguments_map_static());
    assert_eq!(found.len(), 1);
    assert!(found[0].message.contains("map"));
    assert_eq!(found[0].message, "The 'arguments' object does not have a 'map' method");
}

#[test]
fn scenario_computed_map_on_arguments() {
    let found = analyze(&arguments_map_computed());
    assert_eq!(found.len(), 1);
    assert!(found[0].message.contains("map"));
    assert_eq!(found[0].message, "The 'arguments' object does not have a 'map' method");
}

#[test]
fn scenario_empty_slot_map() {
    let found = analyze(&empty_slot_map());
    assert_eq!(found.len(), 1);
    assert_eq!(found[0].labels.len(), 2);
    assert_eq!(found[0].labels[0].label, "never invoked");
    assert_eq!(found[0].labels[1].label, "only empty slots");
}

#[test]
fn scenario_empty_slot_fill_map() {
    assert_eq!(analyze(&empty_slot_fill_map()).len(), 0);
}

#[test]
fn rerun_yields_identical_diagnostics() {
    let g = arguments_map_static();
    let first = analyze(&g);
    let second = analyze(&g);
    assert_eq!(first, second);
    let g2 = empty_slot_map();
    assert_eq!(analyze(&g2), analyze(&g2));
}

#[test]
fn diagnostics_come_in_document_order() {
    // one program holding both anti-patterns: first the arguments misuse,
    // then the empty-slot construction
    let mut g = Graph::new(NodeKind::Program, sp(0, 100));
    let f = g.push(0, Role::Child, NodeKind::Function, sp(0, 50));
    let st1 = g.push(f, Role::Child, NodeKind::Statement, sp(15, 40));
    let call1 =
        g.push(st1, Role::Child, NodeKind::Call { args: vec![ArgShape::Arrow] }, sp(15, 40));
    let member1 = g.push(
        call1,
        Role::Callee,
        NodeKind::Member {
            access: MemberAccess::Static {
                property: "map".to_string(),
                property_span: sp(25, 28),
            },
        },
        sp(15, 28),
    );
    g.push(member1, Role::Object, NodeKind::IdentRef { name: "arguments".to_string() }, sp(15, 24));
    let st2 = g.push(0, Role::Child, NodeKind::Statement, sp(51, 90));
    let call2 =
        g.push(st2, Role::Child, NodeKind::Call { args: vec![ArgShape::Arrow] }, sp(60, 90));
    let member2 = g.push(
        call2,
        Role::Callee,
        NodeKind::Member {
            access: MemberAccess::Static {
                property: "some".to_string(),
                property_span: sp(78, 82),
            },
        },
        sp(60, 82),
    );
    g.push(
        member2,
        Role::Object,
        NodeKind::New { callee: Some("Array".to_string()), args: vec![ArgShape::Numeric] },
        sp(60, 77),
    );
    let found = analyze(&g);
    assert_eq!(found.len(), 2);
    assert_eq!(found[0].message, "The 'arguments' object does not have a 'map' method");
    assert_eq!(found[1].message, "Uninvoked array callback");
}

#[test]
fn run_detectors_appends_to_sink() {
    let g = arguments_map_static();
    let detectors = default_detectors();
    let mut sink = DiagnosticSink::new();
    run_detectors(&g, &detectors, &mut sink);
    assert_eq!(sink.len(), 1);
    run_detectors(&g, &detectors, &mut sink);
    assert_eq!(sink.len(), 2);
    assert_eq!(sink.get(0).message, "The 'arguments' object does not have a 'map' method");
    let all = sink.into_vec();
    assert_eq!(all[0], all[1]);
}

#[test]
fn rule_metadata() {
    let bad = BadArrayMethodOnArguments;
    assert_eq!(bad.name(), "bad-array-method-on-arguments");
    assert_eq!(bad.category(), "correctness");
    let uninvoked = UninvokedArrayCallback;
    assert_eq!(uninvoked.name(), "uninvoked-array-callback");
    assert_eq!(uninvoked.category(), "correctness");
}

#[test]
fn ancestor_walk_stops_at_root() {
    let g = arguments_map_static();
    // node 5 is the `arguments` identifier: five ancestors up to the root
    assert_eq!(g.ancestor_of(5, 0), Some(5));
    assert_eq!(g.ancestor_of(5, 1), Some(4));
    assert_eq!(g.ancestor_of(5, 5), Some(0));
    assert_eq!(g.ancestor_of(5, 6), None);
    assert_eq!(g.ancestor_of(0, 1), None);
}

#[test]
fn detector_names_are_stable() {
    let detectors = default_detectors();
    assert_eq!(detectors.len(), 2);
    assert_eq!(detectors[0].name(), "bad-array-method-on-arguments");
    assert_eq!(detectors[1].name(), "uninvoked-array-callback");
}

#[test]
fn empty_graph_of_one_root_yields_nothing() {
    let g = Graph::new(NodeKind::Program, sp(0, 0));
    assert_eq!(analyze(&g).len(), 0);
}
