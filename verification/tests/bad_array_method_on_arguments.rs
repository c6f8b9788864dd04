//! Tests of the argument-collection detector, one tree per source shape.

use astlint::analyze;
use astlint::ArgShape;
use astlint::Diagnostic;
use astlint::Graph;
use astlint::KeyExpr;
use astlint::MemberAccess;
use astlint::NodeKind;
use astlint::Role;
use astlint::Span;

fn sp(a: u32, b: u32) -> Span {
    Span::new(a, b)
}

/// `function fn() { ... }`: a program holding one function; returns the
/// graph and the function's node identity.
fn program_with_function() -> (Graph, usize) {
    let mut g = Graph::new(NodeKind::Program, sp(0, 100));
    let f = g.push(0, Role::Child, NodeKind::Function, sp(0, 100));
    (g, f)
}

/// A statement inside the function body.
fn statement(g: &mut Graph, f: usize) -> usize {
    g.push(f, Role::Child, NodeKind::Statement, sp(15, 90))
}

/// `<name>` alone in statement position.
fn bare_ident(name: &str) -> Graph {
    let (mut g, f) = program_with_function();
    let st = statement(&mut g, f);
    g.push(st, Role::Child, NodeKind::IdentRef { name: name.to_string() }, sp(15, 24));
    g
}

/// `<ident>.<prop>` with no call around it.
fn static_access_no_call(ident: &str, prop: &str) -> Graph {
    let (mut g, f) = program_with_function();
    let st = statement(&mut g, f);
    let member = g.push(
        st,
        Role::Child,
        NodeKind::Member {
            access: MemberAccess::Static { property: prop.to_string(), property_span: sp(25, 28) },
        },
        sp(15, 28),
    );
    g.push(member, Role::Object, NodeKind::IdentRef { name: ident.to_string() }, sp(15, 24));
    g
}

/// `<ident>.<prop>(<args>)`.
fn static_call(ident: &str, prop: &str, args: Vec<ArgShape>) -> Graph {
    let (mut g, f) = program_with_function();
    let st = statement(&mut g, f);
    let has_callback = args
        .iter()
        .any(|a| matches!(a, ArgShape::Function | ArgShape::Arrow));
    let call = g.push(st, Role::Child, NodeKind::Call { args }, sp(15, 40));
    let member = g.push(
        call,
        Role::Callee,
        NodeKind::Member {
            access: MemberAccess::Static { property: prop.to_string(), property_span: sp(25, 28) },
        },
        sp(15, 28),
    );
    g.push(member, Role::Object, NodeKind::IdentRef { name: ident.to_string() }, sp(15, 24));
    if has_callback {
        g.push(call, Role::Argument, NodeKind::Arrow, sp(29, 37));
    }
    g
}

/// `<ident>[<key>]` with no call around it: the computed-member node sits
/// one layer below its generic property-access wrapper.
fn computed_access_no_call(ident: &str, key: KeyExpr) -> Graph {
    let (mut g, f) = program_with_function();
    let st = statement(&mut g, f);
    let wrapper = g.push(
        st,
        Role::Child,
        NodeKind::Member { access: MemberAccess::Computed { key_span: sp(25, 30) } },
        sp(15, 31),
    );
    let computed =
        g.push(wrapper, Role::Child, NodeKind::ComputedMember { key, key_span: sp(25, 30) }, sp(15, 31));
    g.push(computed, Role::Object, NodeKind::IdentRef { name: ident.to_string() }, sp(15, 24));
    g
}

/// `<ident>[<key>](<args>)`.
fn computed_call(ident: &str, key: KeyExpr, args: Vec<ArgShape>) -> Graph {
    let (mut g, f) = program_with_function();
    let st = statement(&mut g, f);
    let has_callback = args
        .iter()
        .any(|a| matches!(a, ArgShape::Function | ArgShape::Arrow));
    let call = g.push(st, Role::Child, NodeKind::Call { args }, sp(15, 45));
    let wrapper = g.push(
        call,
        Role::Callee,
        NodeKind::Member { access: MemberAccess::Computed { key_span: sp(25, 30) } },
        sp(15, 31),
    );
    let computed =
        g.push(wrapper, Role::Child, NodeKind::ComputedMember { key, key_span: sp(25, 30) }, sp(15, 31));
    g.push(computed, Role::Object, NodeKind::IdentRef { name: ident.to_string() }, sp(15, 24));
    if has_callback {
        g.push(call, Role::Argument, NodeKind::Arrow, sp(32, 40));
    }
    g
}

/// `foo.arguments.map`: the reserved word appears only as a property name.
fn nested_static_chain() -> Graph {
    let (mut g, f) = program_with_function();
    let st = statement(&mut g, f);
    let outer = g.push(
        st,
        Role::Child,
        NodeKind::Member {
            access: MemberAccess::Static { property: "map".to_string(), property_span: sp(29, 32) },
        },
        sp(15, 32),
    );
    let inner = g.push(
        outer,
        Role::Object,
        NodeKind::Member {
            access: MemberAccess::Static {
                property: "arguments".to_string(),
                property_span: sp(19, 28),
            },
        },
        sp(15, 28),
    );
    g.push(inner, Role::Object, NodeKind::IdentRef { name: "foo".to_string() }, sp(15, 18));
    g
}

fn diags(g: &Graph) -> Vec<Diagnostic> {
    analyze(g)
}

fn count(g: &Graph) -> usize {
    diags(g).len()
}

fn str_key(s: &str) -> KeyExpr {
    KeyExpr::StrLit(s.to_string())
}

fn tpl_key(s: &str) -> KeyExpr {
    KeyExpr::TemplateNoSub(s.to_string())
}

#[test]
fn bad_array_method_on_arguments_test() {
    // function fn() {}
    let (g, _) = program_with_function();
    assert_eq!(count(&g), 0);
    // function fn(...args) {return args.reduce((prev, cur) => prev + cur, 0)}
    assert_eq!(count(&static_call("args", "reduce", vec![ArgShape::Arrow, ArgShape::Numeric])), 0);
    // function fn() {arguments.foo}
    assert_eq!(count(&static_access_no_call("arguments", "foo")), 0);
    // function fn() {arguments.map}
    assert_eq!(count(&static_access_no_call("arguments", "map")), 0);
    // function fn() {arguments[method] }
    assert_eq!(count(&computed_access_no_call("arguments", KeyExpr::Dynamic)), 0);
    // function fn() {let method='map'; arguments[method](() => {}) }
    assert_eq!(count(&computed_call("arguments", KeyExpr::Dynamic, vec![ArgShape::Arrow])), 0);
    // function fn() {arguments['map']}
    assert_eq!(count(&computed_access_no_call("arguments", str_key("map"))), 0);
    // function fn() {arguments[`map`]}
    assert_eq!(count(&computed_access_no_call("arguments", tpl_key("map"))), 0);
    // function fn() {arg['map'](() => {})}
    assert_eq!(count(&computed_call("arg", str_key("map"), vec![ArgShape::Arrow])), 0);
    // function fn() {foo.arguments.map}
    assert_eq!(count(&nested_static_chain()), 0);
    // function fn() {arguments[`map${''}`]((prev, cur) => prev + cur, 0)}
    assert_eq!(
        count(&computed_call("arguments", KeyExpr::Dynamic, vec![ArgShape::Arrow, ArgShape::Numeric])),
        0
    );
    // function fn() {arguments[`${''}map`]((prev, cur) => prev + cur, 0)}
    assert_eq!(
        count(&computed_call("arguments", KeyExpr::Dynamic, vec![ArgShape::Arrow, ArgShape::Numeric])),
        0
    );
    // function fn() {arguments[`${'map'}`]((prev, cur) => prev + cur, 0)}
    assert_eq!(
        count(&computed_call("arguments", KeyExpr::Dynamic, vec![ArgShape::Arrow, ArgShape::Numeric])),
        0
    );
    // function fn() {arguments.toLocaleString(() => {})}
    assert_eq!(count(&static_call("arguments", "toLocaleString", vec![ArgShape::Arrow])), 0);
    // function fn() {arguments.toString(() => {})}
    assert_eq!(count(&static_call("arguments", "toString", vec![ArgShape::Arrow])), 0);
    // function fn() {arguments.findLast(() => {})}
    assert_eq!(count(&static_call("arguments", "findLast", vec![ArgShape::Arrow])), 0);
    // function fn() {arguments.group(() => {})}
    assert_eq!(count(&static_call("arguments", "group", vec![ArgShape::Arrow])), 0);
    // function fn() {arguments.groupToMap(() => {})}
    assert_eq!(count(&static_call("arguments", "groupToMap", vec![ArgShape::Arrow])), 0);
    // function fn() {arguments.toReversed(() => {})}
    assert_eq!(count(&static_call("arguments", "toReversed", vec![ArgShape::Arrow])), 0);
    // function fn() {arguments.toSorted(() => {})}
    assert_eq!(count(&static_call("arguments", "toSorted", vec![ArgShape::Arrow])), 0);
    // function fn() {arguments.toSpliced(0)}
    assert_eq!(count(&static_call("arguments", "toSpliced", vec![ArgShape::Numeric])), 0);
    // function fn() {arguments.with(1, 1)}
    assert_eq!(
        count(&static_call("arguments", "with", vec![ArgShape::Numeric, ArgShape::Numeric])),
        0
    );

    // function fn() {arguments['map'](() => {})}
    assert_eq!(count(&computed_call("arguments", str_key("map"), vec![ArgShape::Arrow])), 1);
    // function fn() {arguments[`map`](() => {})}
    assert_eq!(count(&computed_call("arguments", tpl_key("map"), vec![ArgShape::Arrow])), 1);
    // function fn() {arguments.at(0)}
    assert_eq!(count(&static_call("arguments", "at", vec![ArgShape::Numeric])), 1);
    // function fn() {arguments.concat([])}
    assert_eq!(count(&static_call("arguments", "concat", vec![ArgShape::Other])), 1);
    // function fn() {arguments.copyWithin(0)}
    assert_eq!(count(&static_call("arguments", "copyWithin", vec![ArgShape::Numeric])), 1);
    // function fn() {arguments.entries()}
    assert_eq!(count(&static_call("arguments", "entries", vec![])), 1);
    // function fn() {arguments.every(() => {})}
    assert_eq!(count(&static_call("arguments", "every", vec![ArgShape::Arrow])), 1);
    // function fn() {arguments.fill(() => {})}
    assert_eq!(count(&static_call("arguments", "fill", vec![ArgShape::Arrow])), 1);
    // function fn() {arguments.filter(() => {})}
    assert_eq!(count(&static_call("arguments", "filter", vec![ArgShape::Arrow])), 1);
    // function fn() {arguments.find(() => {})}
    assert_eq!(count(&static_call("arguments", "find", vec![ArgShape::Arrow])), 1);
    // function fn() {arguments.findIndex(() => {})}
    assert_eq!(count(&static_call("arguments", "findIndex", vec![ArgShape::Arrow])), 1);
    // function fn() {arguments.flat(() => {})}
    assert_eq!(count(&static_call("arguments", "flat", vec![ArgShape::Arrow])), 1);
    // function fn() {arguments.flatMap(() => {})}
    assert_eq!(count(&static_call("arguments", "flatMap", vec![ArgShape::Arrow])), 1);
    // function fn() {arguments.forEach(() => {})}
    assert_eq!(count(&static_call("arguments", "forEach", vec![ArgShape::Arrow])), 1);
    // function fn() {arguments.includes(() => {})}
    assert_eq!(count(&static_call("arguments", "includes", vec![ArgShape::Arrow])), 1);
    // function fn() {arguments.indexOf(() => {})}
    assert_eq!(count(&static_call("arguments", "indexOf", vec![ArgShape::Arrow])), 1);
    // function fn() {arguments.join()}
    assert_eq!(count(&static_call("arguments", "join", vec![])), 1);
    // function fn() {arguments.keys()}
    assert_eq!(count(&static_call("arguments", "keys", vec![])), 1);
    // function fn() {arguments.lastIndexOf('')}
    assert_eq!(count(&static_call("arguments", "lastIndexOf", vec![ArgShape::Other])), 1);
    // function fn() {arguments.map(() => {})}
    assert_eq!(count(&static_call("arguments", "map", vec![ArgShape::Arrow])), 1);
    // function fn() {arguments.pop()}
    assert_eq!(count(&static_call("arguments", "pop", vec![])), 1);
    // function fn() {arguments.push('')}
    assert_eq!(count(&static_call("arguments", "push", vec![ArgShape::Other])), 1);
    // function fn() {arguments.reduce(() => {})}
    assert_eq!(count(&static_call("arguments", "reduce", vec![ArgShape::Arrow])), 1);
    // function fn() {arguments.reduceRight(() => {})}
    assert_eq!(count(&static_call("arguments", "reduceRight", vec![ArgShape::Arrow])), 1);
    // function fn() {arguments.reverse()}
    assert_eq!(count(&static_call("arguments", "reverse", vec![])), 1);
    // function fn() {arguments.shift()}
    assert_eq!(count(&static_call("arguments", "shift", vec![])), 1);
    // function fn() {arguments.slice()}
    assert_eq!(count(&static_call("arguments", "slice", vec![])), 1);
    // function fn() {arguments.some(() => {})}
    assert_eq!(count(&static_call("arguments", "some", vec![ArgShape::Arrow])), 1);
    // function fn() {arguments.sort(() => {})}
    assert_eq!(count(&static_call("arguments", "sort", vec![ArgShape::Arrow])), 1);
    // function fn() {arguments.splice(() => {})}
    assert_eq!(count(&static_call("arguments", "splice", vec![ArgShape::Arrow])), 1);
    // function fn() {arguments.unshift()}
    assert_eq!(count(&static_call("arguments", "unshift", vec![])), 1);
    // function fn() {arguments.values()}
    assert_eq!(count(&static_call("arguments", "values", vec![])), 1);
    // function fn() {arguments['@@iterator'](() => {})}
    assert_eq!(count(&computed_call("arguments", str_key("@@iterator"), vec![ArgShape::Arrow])), 1);
}

#[test]
fn test_array_is_sorted() {
    let table = astlint::tables::array_methods();
    let mut sorted_array = table.to_vec();
    sorted_array.sort_unstable();
    assert_eq!(sorted_array, table);
}

#[test]
fn bare_arguments_reference_not_flagged() {
    assert_eq!(count(&bare_ident("arguments")), 0);
    assert_eq!(count(&bare_ident("other")), 0);
}

#[test]
fn static_diagnostic_details() {
    let g = static_call("arguments", "map", vec![ArgShape::Arrow]);
    let found = diags(&g);
    assert_eq!(found.len(), 1);
    let d = &found[0];
    assert_eq!(d.severity, astlint::Severity::Warning);
    assert_eq!(d.message, "The 'arguments' object does not have a 'map' method");
    // the primary span is the property-name span, inside the member span
    assert_eq!(d.span, sp(25, 28));
    assert!(sp(15, 28).covers(&d.span));
    assert!(d.labels.is_empty());
    assert_eq!(
        d.help.as_deref(),
        Some(
            "Consider converting the 'arguments' object to a real array or using an ES6 rest parameter instead."
        )
    );
}

#[test]
fn computed_diagnostic_names_resolved_key() {
    let g = computed_call("arguments", tpl_key("forEach"), vec![ArgShape::Arrow]);
    let found = diags(&g);
    assert_eq!(found.len(), 1);
    assert_eq!(found[0].message, "The 'arguments' object does not have a 'forEach' method");
    assert_eq!(found[0].span, sp(25, 30));
}
