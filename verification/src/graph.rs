//! The node graph: an arena of syntax nodes with stable integer identities.
//!
//! Each node records its syntactic kind, its source span, the identity of its
//! parent (the root alone has none), and the role it plays inside its parent.
//! The arena is append-only: a node's parent always has a smaller identity,
//! so parent links can never form a cycle and every upward walk terminates.

use vstd::prelude::*;

use crate::span::Span;

verus! {

/// The role a node plays inside its parent construct.
#[derive(Clone, Copy, Debug, PartialEq, Eq, Structural)]
pub enum Role {
    /// The single root node of the graph.
    Root,
    /// The callee position of a call or construction.
    Callee,
    /// The object of a property access.
    Object,
    /// An argument of a call or construction.
    Argument,
    /// The key expression of a computed property access.
    Key,
    /// Any other child position (statement in a body, initializer, ...).
    Child,
}

/// A summary of one argument of a call or `new` expression, as far as the
/// detectors need to classify it.
#[derive(Clone, Copy, Debug, PartialEq, Eq, Structural)]
pub enum ArgShape {
    /// A single numeric literal.
    Numeric,
    /// A `function` expression.
    Function,
    /// An arrow function expression.
    Arrow,
    /// A spread element.
    Spread,
    /// Anything else.
    Other,
}

/// The key of a computed property access, as the parser saw it.
#[derive(Clone, Debug)]
pub enum KeyExpr {
    /// A string literal key.
    StrLit(String),
    /// A template literal with no interpolation, with its cooked text.
    TemplateNoSub(String),
    /// Any key that is not a literal (an identifier, an interpolated
    /// template, an arbitrary expression).
    Dynamic,
}

/// The payload of a generic property-access node.
#[derive(Clone, Debug)]
pub enum MemberAccess {
    /// A statically named access: `obj.name`.
    Static { property: String, property_span: Span },
    /// A computed access: `obj[key]`.
    Computed { key_span: Span },
    /// A private-field access: `obj.#name`.
    PrivateField { field_span: Span },
}

/// The closed enumeration of syntactic categories the engine distinguishes,
/// each with its category-specific payload.
#[derive(Clone, Debug)]
pub enum NodeKind {
    /// The file root.
    Program,
    /// A `function` declaration or expression.
    Function,
    /// An arrow function expression.
    Arrow,
    /// A statement wrapper (expression statement, declaration, ...).
    Statement,
    /// A reference to an identifier.
    IdentRef { name: String },
    /// A generic property-access node.
    Member { access: MemberAccess },
    /// The distinct computed-member node, one layer below the generic
    /// property-access node in the tree shape this engine assumes.
    ComputedMember { key: KeyExpr, key_span: Span },
    /// A call expression with a summary of its arguments.
    Call { args: Vec<ArgShape> },
    /// A `new` expression: the callee's name when it is a plain identifier,
    /// and a summary of the constructor arguments.
    New { callee: Option<String>, args: Vec<ArgShape> },
    /// A numeric literal.
    NumericLit,
    /// A string literal.
    StringLit,
    /// A template literal.
    TemplateLit,
}

/// One syntactic construct.
#[derive(Clone, Debug)]
pub struct Node {
    pub kind: NodeKind,
    pub span: Span,
    pub parent: Option<usize>,
    pub role: Role,
}

/// An immutable, append-only graph of nodes for one analyzed file.
///
/// Identities are indices into the arena, assigned in document order by the
/// external builder: parents are pushed before their children.
#[derive(Clone, Debug)]
pub struct Graph {
    nodes: Vec<Node>,
}

impl Graph {
    /// The abstract contents of the graph.
    pub closed spec fn view(&self) -> Seq<Node> {
        self.nodes@
    }

    /// Well-formedness: node 0 is the single root; every later node has a
    /// parent with a strictly smaller identity.
    pub open spec fn wf(&self) -> bool {
        &&& self@.len() > 0 ==> self@[0].parent is None
        &&& forall|i: int|
            1 <= i < self@.len() ==> ((#[trigger] self@[i].parent) matches Some(p) && 0 <= p < i)
    }

    /// A fresh graph holding only its root node.
    pub fn new(root_kind: NodeKind, root_span: Span) -> (g: Graph)
        ensures
            g.wf(),
            g@.len() == 1,
            g@[0].kind == root_kind,
            g@[0].span == root_span,
            g@[0].parent is None,
            g@[0].role == Role::Root,
    {
        let node = Node { kind: root_kind, span: root_span, parent: None, role: Role::Root };
        let mut nodes: Vec<Node> = Vec::new();
        nodes.push(node);
        Graph { nodes }
    }

    /// Append one node under an existing parent; returns its identity.
    pub fn push(&mut self, parent: usize, role: Role, kind: NodeKind, span: Span) -> (id: usize)
        requires
            old(self).wf(),
            parent < old(self)@.len(),
            role != Role::Root,
        ensures
            final(self).wf(),
            id == old(self)@.len(),
            final(self)@.len() == old(self)@.len() + 1,
            final(self)@ =~= old(self)@.push(
                Node { kind, span, parent: Some(parent), role },
            ),
    {
        let id = self.nodes.len();
        self.nodes.push(Node { kind, span, parent: Some(parent), role });
        id
    }

    /// The number of nodes in the graph.
    pub fn len(&self) -> (n: usize)
        ensures
            n == self@.len(),
    {
        self.nodes.len()
    }

    /// The parent identity of a node; `None` exactly for the root.
    pub fn parent_of(&self, id: usize) -> (p: Option<usize>)
        requires
            id < self@.len(),
        ensures
            p == self@[id as int].parent,
    {
        self.nodes[id].parent
    }

    /// The kind of a node.
    pub fn kind_of(&self, id: usize) -> (k: &NodeKind)
        requires
            id < self@.len(),
        ensures
            *k == self@[id as int].kind,
    {
        &self.nodes[id].kind
    }

    /// The source span of a node.
    pub fn span_of(&self, id: usize) -> (s: Span)
        requires
            id < self@.len(),
        ensures
            s == self@[id as int].span,
    {
        self.nodes[id].span
    }

    /// The role a node plays inside its parent.
    pub fn role_of(&self, id: usize) -> (r: Role)
        requires
            id < self@.len(),
        ensures
            r == self@[id as int].role,
    {
        self.nodes[id].role
    }

    /// The ancestor `degree` parent links above a node, or `None` when the
    /// walk runs past the root.
    pub fn ancestor_of(&self, id: usize, degree: usize) -> (a: Option<usize>)
        requires
            self.wf(),
            id < self@.len(),
        ensures
            (a is None) == (spec_ancestor(self@, id as int, degree as nat) is None),
            (a matches Some(k) ==> spec_ancestor(self@, id as int, degree as nat) == Some(k as int)
                && k < self@.len()),
        decreases degree,
    {
        if degree == 0 {
            Some(id)
        } else {
            match self.nodes[id].parent {
                Some(p) => self.ancestor_of(p, degree - 1),
                None => None,
            }
        }
    }
}

/// The ancestor relation: `degree` parent links above node `id`.
pub open spec fn spec_ancestor(nodes: Seq<Node>, id: int, degree: nat) -> Option<int>
    decreases degree,
{
    if degree == 0 {
        Some(id)
    } else if 0 <= id < nodes.len() {
        match nodes[id].parent {
            Some(p) => spec_ancestor(nodes, p as int, (degree - 1) as nat),
            None => None,
        }
    } else {
        None
    }
}

} // verus!
