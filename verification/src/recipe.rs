//! The show-rule rewrite primitive: patterns, targets, and recipes.
//!
//! An external resolution loop walks the active style chain, asks each recipe
//! `applicable`/`apply` in turn, and re-enters with the produced content. The
//! guard attached to every produced node is the sole termination mechanism
//! for rules whose output is itself of the matched kind.

use vstd::prelude::*;

use crate::ident::Interruption;
use crate::ident::NodeId;
use crate::ident::Selector;
use crate::ident::Span;
use crate::value::Content;
use crate::value::Value;

verus! {

/// A show rule pattern that may match a target. A discriminated union so
/// that match strategies beyond node-kind identity can be added without
/// touching existing call sites.
#[derive(Debug, Clone, Copy, PartialEq, Eq, Hash, Structural)]
pub enum Pattern {
    /// Matches nodes of exactly this kind.
    Node(NodeId),
}

/// A target for a show rule recipe: a reference-only view of the candidate
/// being matched.
#[derive(Debug, Clone, Copy)]
pub enum Target<'a> {
    /// A showable content node.
    Node(&'a Content),
}

/// An error raised while applying a recipe, tagged with the span of the rule
/// definition so diagnostics point at it.
#[derive(Debug, Clone, PartialEq)]
pub struct SourceError {
    /// Where the failing rule was defined.
    pub span: Span,
    /// What went wrong.
    pub message: String,
}

/// Arguments handed to a recipe function.
#[derive(Debug, Clone)]
pub struct Args {
    /// The span of the rule definition, for diagnostics raised by the call.
    pub span: Span,
    /// The positional argument values.
    pub items: Vec<Value>,
}

impl Args {
    /// An empty argument list.
    pub fn new(span: Span) -> (r: Args)
        ensures
            r.span == span,
            r.items@ =~= Seq::<Value>::empty(),
    {
        Args { span, items: Vec::new() }
    }

    /// An argument list holding exactly the given values.
    pub fn from_values(span: Span, values: Vec<Value>) -> (r: Args)
        ensures
            r.span == span,
            r.items@ == values@,
    {
        Args { span, items: values }
    }
}

/// A callable value bound by a recipe. The evaluator owns function semantics;
/// this core only needs the declared argument count and the ability to call.
/// Implementations report errors as plain messages; the engine tags them with
/// the recipe's span.
pub trait RecipeFunc {
    /// The declared argument count, if the callable advertises one. This
    /// core supports exactly zero- and one-argument recipe functions.
    fn argc(&self) -> Option<usize>;

    /// Calls the function with the given arguments.
    fn call(&self, args: Args) -> Result<Value, String>;
}

/// Whether `pattern` matches `target`: true exactly when the node-kind
/// identity carried by the target equals the identity stored in the pattern.
pub open spec fn pattern_matches(pattern: Pattern, target: Target) -> bool {
    match (pattern, target) {
        (Pattern::Node(id), Target::Node(node)) => id == node.id,
    }
}

/// What kind of structure a pattern interrupts: list grouping exactly when
/// the pattern's identity is the list or the enumeration node kind.
pub open spec fn interruption_spec(pattern: Pattern) -> Option<Interruption> {
    match pattern {
        Pattern::Node(id) => if id == NodeId::list_spec() || id == NodeId::enumeration_spec() {
            Option::Some(Interruption::List)
        } else {
            Option::None
        },
    }
}

/// Any pattern and target whose node identities differ do not match: the
/// matching predicate is total and cannot do anything but answer `false` on
/// every mismatched combination.
pub proof fn lemma_match_totality(pattern: Pattern, target: Target)
    ensures
        (match (pattern, target) {
            (Pattern::Node(id), Target::Node(node)) => id != node.id,
        }) ==> !pattern_matches(pattern, target),
{
}

/// Builds the argument list for a recipe function from its declared arity:
/// a zero-argument function receives no arguments, any other declaration
/// receives exactly the encoded node as its sole argument.
pub fn build_args(argc: Option<usize>, span: Span, arg: Value) -> (r: Args)
    ensures
        r.span == span,
        argc == Option::Some(0usize) ==> r.items@ =~= Seq::<Value>::empty(),
        argc != Option::Some(0usize) ==> r.items@ =~= seq![arg],
{
    let zero = match argc {
        Some(n) => n == 0,
        None => false,
    };
    if zero {
        Args::new(span)
    } else {
        let mut values: Vec<Value> = Vec::new();
        values.push(arg);
        Args::from_values(span, values)
    }
}

/// Turns the raw outcome of a recipe function call into the engine's result:
/// a content value passes through, any other value is a type-cast error, and
/// a call failure propagates unchanged; both errors are tagged with `span`.
pub fn finish_call(outcome: Result<Value, String>, span: Span) -> (r: Result<Content, SourceError>)
    ensures
        match outcome {
            Ok(Value::Content(c)) => r == Ok::<Content, SourceError>(c),
            Ok(_) => r matches Err(e) && e.span == span,
            Err(m) => r matches Err(e) && e.span == span && e.message == m,
        },
{
    match outcome {
        Ok(Value::Content(c)) => Ok(c),
        Ok(_) => Err(SourceError { span, message: "expected content".to_owned() }),
        Err(m) => Err(SourceError { span, message: m }),
    }
}

/// A show rule recipe: a pattern, the function that rewrites matched nodes,
/// and the span of the rule definition. Immutable once constructed and shared
/// across every chain position that references it.
#[derive(Debug, Clone)]
pub struct Recipe<F> {
    /// The pattern to customize.
    pub pattern: Pattern,
    /// The function that defines the recipe.
    pub func: F,
    /// The span to report all errors with.
    pub span: Span,
}

impl<F: RecipeFunc> Recipe<F> {
    /// Whether the recipe is applicable to the target. Total and side-effect
    /// free: a mismatched pattern/target combination is simply `false`.
    pub fn applicable(&self, target: Target) -> (r: bool)
        ensures
            r == pattern_matches(self.pattern, target),
    {
        match (&self.pattern, target) {
            (Pattern::Node(id), Target::Node(node)) => *id == node.id,
        }
    }

    /// Calls the recipe function, passing `arg` exactly when the function
    /// declares an arity other than zero. Every error that comes out is
    /// tagged with the recipe's span.
    pub fn call(&self, arg: Value) -> (r: Result<Content, SourceError>)
        ensures
            r matches Err(e) ==> e.span == self.span,
    {
        let args = build_args(self.func.argc(), self.span, arg);
        finish_call(self.func.call(args), self.span)
    }

    /// Tries to apply the recipe to the target.
    ///
    /// A pattern mismatch is not an error: it yields `Ok(None)`. On a match,
    /// the guard for `sel` is first cleared from the node (so an earlier
    /// guard cannot stale-block a legitimate re-examination), the function is
    /// called on the node's encoding, and the produced content is wrapped
    /// with a guard for `sel` before it is returned. Whatever the function
    /// does, produced content always carries the guard, and every error is
    /// tagged with the recipe's span.
    pub fn apply(&self, sel: Selector, target: Target) -> (r: Result<
        Option<Content>,
        SourceError,
    >)
        ensures
            !pattern_matches(self.pattern, target) ==> r == Ok::<Option<Content>, SourceError>(
                Option::None,
            ),
            pattern_matches(self.pattern, target) ==> match r {
                Ok(produced) => produced matches Some(c) && c.guards@.len() > 0
                    && c.guards@.last() == sel && c.guards@.contains(sel),
                Err(e) => e.span == self.span,
            },
    {
        let matched = match (target, &self.pattern) {
            (Target::Node(node), Pattern::Node(id)) => node.id == *id,
        };
        if !matched {
            return Ok(None);
        }
        let content = match (target, &self.pattern) {
            (Target::Node(node), Pattern::Node(_)) => {
                let unguarded = node.unguard(sel);
                let arg = unguarded.encode();
                match self.call(arg) {
                    Ok(c) => c,
                    Err(e) => {
                        return Err(e);
                    },
                }
            },
        };
        Ok(Some(content.styled_with_guard(sel)))
    }

    /// What kind of structure the recipe interrupts: `Some(List)` exactly
    /// when the pattern's identity is the list or the enumeration node kind.
    /// Purely a function of the pattern, independent of what the recipe
    /// function returns.
    pub fn interruption(&self) -> (r: Option<Interruption>)
        ensures
            r == interruption_spec(self.pattern),
    {
        match &self.pattern {
            Pattern::Node(id) => {
                if *id == NodeId::list() || *id == NodeId::enumeration() {
                    Some(Interruption::List)
                } else {
                    None
                }
            },
        }
    }
}

} // verus!
