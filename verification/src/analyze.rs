//! The speculative value resolver and the best-effort module resolver.
//!
//! Both are tooling aids: every internal failure degrades to an empty result
//! or "no module", never to a propagated error, so their callers keep
//! functioning on incomplete or invalid documents.

use vstd::prelude::*;

use crate::ident::SourceId;
use crate::ident::Span;
use crate::path::FilePath;
use crate::path::PathExt;
use crate::path::PathSeg;
use crate::path::normalize_spec;
use crate::syntax::ExprKind;
use crate::syntax::LinkedNode;
use crate::syntax::Module;
use crate::syntax::Source;
use crate::syntax::SyntaxNode;
use crate::syntax::project_spec;
use crate::syntax::pure_resolve;
use crate::value::Value;
use crate::value::field_spec;

verus! {

/// An evaluation probe: while a run is in progress it is offered every value
/// produced at each span, and it records those at its target span — or all of
/// them when no target is configured — in production order.
#[derive(Debug)]
pub struct Tracer {
    /// The span whose values are recorded, or nothing to record every value.
    pub target: Option<Span>,
    /// The values recorded so far, in production order.
    pub values: Vec<Value>,
}

impl Tracer {
    /// The values recorded so far, in production order.
    pub open spec fn observed(&self) -> Seq<Value> {
        self.values@
    }

    /// A fresh probe with the given target span, holding nothing.
    pub fn new(target: Option<Span>) -> (r: Tracer)
        ensures
            r.target == target,
            r.observed() =~= Seq::<Value>::empty(),
    {
        Tracer { target, values: Vec::new() }
    }

    /// Offers the probe one value produced at `span`. It is recorded exactly
    /// when the probe has no target or the target is this span.
    pub fn observe(&mut self, span: Span, value: Value)
        ensures
            final(self).target == old(self).target,
            (old(self).target is None || old(self).target == Option::Some(span))
                ==> final(self).observed() == old(self).observed().push(value),
            !(old(self).target is None || old(self).target == Option::Some(span))
                ==> final(self).observed() == old(self).observed(),
    {
        let keep = match &self.target {
            None => true,
            Some(t) => *t == span,
        };
        if keep {
            self.values.push(value);
        }
    }

    /// Drains the probe: exactly the values observed at the target span (or
    /// all observed values when no target is configured), in production
    /// order.
    pub fn finish(self) -> (r: Vec<Value>)
        ensures
            r@ == self.observed(),
    {
        self.values
    }
}

/// The values a probe with target `target` records when it is offered the
/// (span, value) pairs `offers` in production order.
pub open spec fn recorded(target: Option<Span>, offers: Seq<(Span, Value)>) -> Seq<Value>
    decreases offers.len(),
{
    if offers.len() == 0 {
        Seq::empty()
    } else {
        let rest = recorded(target, offers.drop_first());
        if target is None || target == Option::Some(offers[0].0) {
            seq![offers[0].1] + rest
        } else {
            rest
        }
    }
}

/// The capabilities this core needs from its environment: a read-only source
/// loader and the expression evaluator, both implemented by the host. What
/// each call answers is the implementation's own affair, described by its
/// spec functions; the contracts demand only that the answers are functions
/// of the shown arguments — the incremental engine the host wraps around
/// evaluation memoizes it, so it must be pure — and that evaluation offers
/// every produced value to the probe it is handed, even on a run that ends
/// in an error. The spec functions default to an arbitrary value, so a host
/// outside the verifier can implement the exec methods as they stand; an
/// implementation whose answers are to be reasoned about overrides them.
pub trait World {
    /// The project root the implementation serves.
    open spec fn root_spec(&self) -> FilePath {
        vstd::pervasive::arbitrary()
    }

    /// The source identity, if any, that the loader assigns a path: a
    /// function of the path's anchor and segments alone.
    open spec fn resolve_spec(&self, absolute: bool, segments: Seq<PathSeg>) -> Option<SourceId> {
        vstd::pervasive::arbitrary()
    }

    /// The source text behind an identity.
    open spec fn source_spec(&self, id: SourceId) -> Source {
        vstd::pervasive::arbitrary()
    }

    /// What evaluating a source yields: the module, or the error the run
    /// ends in.
    open spec fn eval_spec(&self, source: Source) -> Result<Module, String> {
        vstd::pervasive::arbitrary()
    }

    /// Every (span, value) pair evaluation of `source` offers a probe, in
    /// production order; a run that ends in an error offers what it produced
    /// up to that point.
    open spec fn offers_spec(&self, source: Source) -> Seq<(Span, Value)> {
        vstd::pervasive::arbitrary()
    }

    /// The project root, used for root-anchored import resolution.
    fn root(&self) -> (r: FilePath)
        ensures
            r == self.root_spec(),
    ;

    /// Resolves a path to a source identity; an unknown path is "not found",
    /// never a crash.
    fn resolve(&self, path: &FilePath) -> (r: Option<SourceId>)
        ensures
            r == self.resolve_spec(path.absolute, path.segments@),
    ;

    /// Fetches the source text behind an identity.
    fn source(&self, id: SourceId) -> (r: Source)
        ensures
            r == self.source_spec(id),
    ;

    /// Evaluates a source file, offering every produced value to `tracer`,
    /// and returns the resulting module or the first error's message.
    fn eval(&self, source: &Source, tracer: &mut Tracer) -> (r: Result<Module, String>)
        ensures
            r == self.eval_spec(*source),
            final(tracer).target == old(tracer).target,
            final(tracer).observed() == old(tracer).observed() + recorded(
                old(tracer).target,
                self.offers_spec(*source),
            ),
    ;
}

/// Projects `name` out of every candidate in `values`: candidates without
/// the field drop out, and the order of the survivors is the input order.
pub fn project_values(values: Vec<Value>, name: &str) -> (r: Vec<Value>)
    ensures
        r@ == project_spec(values@, name@),
{
    let mut out: Vec<Value> = Vec::new();
    let mut i: usize = 0;
    proof {
        assert(values@.subrange(0, values@.len() as int) =~= values@);
    }
    while i < values.len()
        invariant
            i <= values@.len(),
            project_spec(values@, name@) == out@ + project_spec(
                values@.subrange(i as int, values@.len() as int),
                name@,
            ),
        decreases values@.len() - i,
    {
        proof {
            let suffix = values@.subrange(i as int, values@.len() as int);
            assert(suffix[0] == values@[i as int]);
            assert(suffix.drop_first() =~= values@.subrange(i as int + 1, values@.len() as int));
        }
        match values[i].field(name) {
            Some(v) => {
                out.push(v);
                proof {
                    let suffix = values@.subrange(i as int, values@.len() as int);
                    let rest = values@.subrange(i as int + 1, values@.len() as int);
                    assert(project_spec(suffix, name@) =~= seq![
                        field_spec(values@[i as int], name@)->Some_0,
                    ] + project_spec(rest, name@));
                    assert(out@ + project_spec(rest, name@) =~= project_spec(values@, name@));
                }
            },
            None => {},
        }
        i = i + 1;
    }
    proof {
        assert(values@.subrange(values@.len() as int, values@.len() as int).len() == 0);
        assert(out@ + project_spec(
            values@.subrange(values@.len() as int, values@.len() as int),
            name@,
        ) =~= out@);
    }
    out
}

/// Resolves a syntax node to its possible values, without parent context.
///
/// Literals resolve directly to their one value; a field access resolves its
/// base and projects; a non-expression resolves to nothing; everything else
/// re-runs the whole source file with a probe bound to the node's span and
/// returns exactly what the run offers at that span, in production order —
/// the run's own outcome is swallowed, so a later error elsewhere in the
/// file cannot suppress values already produced for the probed span.
pub fn analyze_node<W: World>(world: &W, node: &SyntaxNode) -> (r: Vec<Value>)
    ensures
        pure_resolve(*node) matches Some(vs) ==> r@ == vs,
        node.kind is Other ==> r@ == recorded(
            Option::Some(node.span),
            world.offers_spec(world.source_spec(node.span.source)),
        ),
    decreases *node,
{
    match &node.kind {
        ExprKind::NoneLit => {
            let mut out: Vec<Value> = Vec::new();
            out.push(Value::NoneVal);
            proof {
                assert(out@ =~= seq![Value::NoneVal]);
            }
            out
        },
        ExprKind::AutoLit => {
            let mut out: Vec<Value> = Vec::new();
            out.push(Value::Auto);
            proof {
                assert(out@ =~= seq![Value::Auto]);
            }
            out
        },
        ExprKind::BoolLit(b) => {
            let mut out: Vec<Value> = Vec::new();
            out.push(Value::Bool(*b));
            proof {
                assert(out@ =~= seq![Value::Bool(node.kind->BoolLit_0)]);
            }
            out
        },
        ExprKind::IntLit(i) => {
            let mut out: Vec<Value> = Vec::new();
            out.push(Value::Int(*i));
            proof {
                assert(out@ =~= seq![Value::Int(node.kind->IntLit_0)]);
            }
            out
        },
        ExprKind::StrLit(s) => {
            let mut out: Vec<Value> = Vec::new();
            out.push(Value::Str(s.clone()));
            proof {
                assert(out@ =~= seq![Value::Str(node.kind->StrLit_0)]);
            }
            out
        },
        ExprKind::NonExpr => Vec::new(),
        ExprKind::FieldAccess(name) => {
            if node.children.len() == 0 {
                Vec::new()
            } else {
                let base = analyze_node(world, &node.children[0]);
                project_values(base, name.as_str())
            }
        },
        ExprKind::Other => {
            let source = world.source(node.span.source);
            let mut tracer = Tracer::new(Some(node.span));
            let _ = world.eval(&source, &mut tracer);
            proof {
                assert(Seq::<Value>::empty() + recorded(
                    Option::Some(node.span),
                    world.offers_spec(world.source_spec(node.span.source)),
                ) =~= recorded(
                    Option::Some(node.span),
                    world.offers_spec(world.source_spec(node.span.source)),
                ));
            }
            tracer.finish()
        },
    }
}

/// The enclosing node an expression's resolution is delegated to: the parent
/// of a node that only a full evaluation could resolve standalone, where
/// that parent is a field access and the node is not its leftmost child.
pub open spec fn delegation_target(node: LinkedNode) -> Option<SyntaxNode> {
    if node.node.kind is Other {
        match node.parent {
            Option::Some(link) => if link.0.kind is FieldAccess && link.1 > 0 {
                Option::Some(*link.0)
            } else {
                Option::None
            },
            Option::None => Option::None,
        }
    } else {
        Option::None
    }
}

/// Tries to determine the set of possible values for an expression.
///
/// A node that is itself no literal and no field access, but stands as a
/// non-leftmost child of a field access, is not resolved standalone: its
/// value is only meaningful in the context of the full access chain, so
/// resolution is delegated to the enclosing node. Everything else resolves
/// as `analyze_node` does: exactly on the evaluator-free fragment — whether
/// reached directly or by delegation — and as exactly what the evaluation
/// run offers at the node's span where only a full evaluation can answer.
pub fn analyze_expr<W: World>(world: &W, node: &LinkedNode) -> (r: Vec<Value>)
    ensures
        pure_resolve(node.node) matches Some(vs) ==> r@ == vs,
        delegation_target(*node) matches Some(parent) ==> (pure_resolve(parent) matches Some(vs)
            ==> r@ == vs),
        (node.node.kind is Other && delegation_target(*node) is None) ==> r@ == recorded(
            Option::Some(node.node.span),
            world.offers_spec(world.source_spec(node.node.span.source)),
        ),
{
    let delegate = match &node.node.kind {
        ExprKind::Other => match &node.parent {
            Some((parent, index)) => match &parent.kind {
                ExprKind::FieldAccess(_) => *index > 0,
                _ => false,
            },
            None => false,
        },
        _ => false,
    };
    if delegate {
        match &node.parent {
            Some((parent, _)) => analyze_node(world, parent),
            None => Vec::new(),
        }
    } else {
        analyze_node(world, &node.node)
    }
}

/// The lexically normalized location an import path names: a root-anchored
/// path resolves under `root`, any other resolves under the importing file's
/// containing directory, and a file without one leaves the path as given.
pub open spec fn resolved_import_spec(
    root: FilePath,
    source_path: FilePath,
    path: FilePath,
) -> (bool, Seq<PathSeg>) {
    if path.absolute {
        (root.absolute, normalize_spec(root.segments@ + path.segments@))
    } else if source_path.segments@.len() > 0 {
        (source_path.absolute, normalize_spec(source_path.segments@.drop_last() + path.segments@))
    } else {
        (path.absolute, path.segments@)
    }
}

/// Resolves an import path against the importing file's location: a
/// root-anchored path is taken relative to the project root, any other
/// relative to the importing file's directory, and the result is lexically
/// normalized. A file without a containing directory leaves the path as
/// given.
pub fn resolve_import_path(root: &FilePath, source_path: &FilePath, path: &FilePath) -> (r:
    FilePath)
    ensures
        (r.absolute, r.segments@) == resolved_import_spec(*root, *source_path, *path),
{
    if path.absolute {
        let rel = FilePath { absolute: false, segments: path.duplicate().segments };
        root.join(&rel).normalize()
    } else {
        match source_path.parent() {
            Some(dir) => dir.join(path).normalize(),
            None => path.duplicate(),
        }
    }
}

/// The module an evaluation outcome yields: the module on success, and no
/// module — not an error — on any failure.
pub open spec fn module_of_spec(outcome: Result<Module, String>) -> Option<Module> {
    match outcome {
        Result::Ok(module) => Option::Some(module),
        Result::Err(_) => Option::None,
    }
}

/// Turns an evaluation outcome into its module, as `module_of_spec` says.
pub fn module_of_outcome(outcome: Result<Module, String>) -> (r: Option<Module>)
    ensures
        r == module_of_spec(outcome),
{
    match outcome {
        Ok(module) => Some(module),
        Err(_) => None,
    }
}

/// Finishes an import after the loader has answered: a miss is no module,
/// and a hit is evaluated in a fresh top-level context, any evaluation
/// failure again yielding no module.
pub fn load_resolved<W: World>(world: &W, id: Option<SourceId>) -> (r: Option<Module>)
    ensures
        id is None ==> r is None,
        id matches Some(sid) ==> r == module_of_spec(world.eval_spec(world.source_spec(sid))),
{
    let id = match id {
        Some(id) => id,
        None => {
            return None;
        },
    };
    let resolved = world.source(id);
    let mut tracer = Tracer::new(None);
    module_of_outcome(world.eval(&resolved, &mut tracer))
}

/// Tries to load the module an import path names, from the current source
/// file: the module of evaluating the resolved source exactly when the
/// loader locates the normalized import path and the evaluation succeeds.
/// Any failure at any step — an unresolvable path, a load failure, an
/// evaluation error — yields no module rather than an error: this is for
/// best-effort tooling and must never abort a caller on a malformed or
/// missing import.
pub fn analyze_import<W: World>(world: &W, source: &Source, path: &FilePath) -> (r: Option<Module>)
    ensures
        ({
            let loc = resolved_import_spec(world.root_spec(), source.path, *path);
            match world.resolve_spec(loc.0, loc.1) {
                Option::Some(sid) => r == module_of_spec(world.eval_spec(world.source_spec(sid))),
                Option::None => r is None,
            }
        }),
{
    let root = world.root();
    let full = resolve_import_path(&root, &source.path, path);
    let id = world.resolve(&full);
    load_resolved(world, id)
}

} // verus!
