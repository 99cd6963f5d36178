//! The syntax-tree shapes the speculative resolver reads.
//!
//! The resolver only distinguishes literal expressions, field accesses, other
//! expressions, and non-expression nodes, so nodes carry exactly that
//! classification together with their span and children.

use vstd::prelude::*;

use crate::ident::SourceId;
use crate::ident::Span;
use crate::path::FilePath;
use crate::value::Value;
use crate::value::field_spec;

verus! {

/// What the resolver can read off a syntax node.
#[derive(Debug, Clone, PartialEq)]
pub enum ExprKind {
    /// The literal `none`.
    NoneLit,
    /// The literal `auto`.
    AutoLit,
    /// A boolean literal.
    BoolLit(bool),
    /// An integer literal, carrying its lexical value.
    IntLit(i64),
    /// A string literal, carrying its lexical value.
    StrLit(String),
    /// A field access; the named field is projected out of the first child,
    /// which holds the base expression.
    FieldAccess(String),
    /// Any other expression: only a full evaluation can resolve it.
    Other,
    /// Not an expression at all.
    NonExpr,
}

/// A syntax node: its classification, its source span, and its children.
#[derive(Debug)]
pub struct SyntaxNode {
    /// What kind of node this is.
    pub kind: ExprKind,
    /// Where the node stands in its source file.
    pub span: Span,
    /// The node's children, in source order.
    pub children: Vec<SyntaxNode>,
}

/// A syntax node together with what is known of its position: the enclosing
/// node and this node's index among that node's children, where available.
#[derive(Debug)]
pub struct LinkedNode {
    /// The node itself.
    pub node: SyntaxNode,
    /// The enclosing node and this node's child index within it.
    pub parent: Option<(Box<SyntaxNode>, usize)>,
}

/// A loaded source file.
#[derive(Debug, Clone, PartialEq)]
pub struct Source {
    /// The loader's identity for this file.
    pub id: SourceId,
    /// Where the file lives.
    pub path: FilePath,
}

/// The result of evaluating a source file: its top-level bindings.
#[derive(Debug, Clone, PartialEq)]
pub struct Module {
    /// The module's top-level bindings, in definition order.
    pub bindings: Vec<(String, Value)>,
}

/// The ordered union of the successful projections of `name` out of `vs`:
/// candidates without the field drop out, input order is preserved.
pub open spec fn project_spec(vs: Seq<Value>, name: Seq<char>) -> Seq<Value>
    decreases vs.len(),
{
    if vs.len() == 0 {
        Seq::empty()
    } else {
        let rest = project_spec(vs.drop_first(), name);
        match field_spec(vs[0], name) {
            Option::Some(v) => seq![v] + rest,
            Option::None => rest,
        }
    }
}

/// What a node resolves to without running the evaluator: a literal is its
/// one value, a non-expression is nothing, and a field access projects out
/// of its base's resolution. A node that needs a full evaluation — or a
/// field access whose base does — has no pure resolution.
pub open spec fn pure_resolve(node: SyntaxNode) -> Option<Seq<Value>>
    decreases node,
{
    match node.kind {
        ExprKind::NoneLit => Option::Some(seq![Value::NoneVal]),
        ExprKind::AutoLit => Option::Some(seq![Value::Auto]),
        ExprKind::BoolLit(b) => Option::Some(seq![Value::Bool(b)]),
        ExprKind::IntLit(i) => Option::Some(seq![Value::Int(i)]),
        ExprKind::StrLit(s) => Option::Some(seq![Value::Str(s)]),
        ExprKind::FieldAccess(name) => if node.children@.len() == 0 {
            Option::Some(Seq::empty())
        } else {
            match pure_resolve(node.children@[0]) {
                Option::Some(vs) => Option::Some(project_spec(vs, name@)),
                Option::None => Option::None,
            }
        },
        ExprKind::Other => Option::None,
        ExprKind::NonExpr => Option::Some(Seq::empty()),
    }
}

} // verus!

