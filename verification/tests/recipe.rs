//! Behavior of the rewrite primitive: matching, arity dispatch, guarding,
//! interruption classification, and error tagging.

use showcore::ident::{Interruption, NodeId, Selector, Span, SourceId};
use showcore::recipe::{build_args, Args, Pattern, Recipe, RecipeFunc, Target};
use showcore::value::{Content, Scalar, Value};

fn span(n: u64) -> Span {
    Span { source: SourceId { raw: 7 }, number: n }
}

fn node(id: u64) -> Content {
    Content {
        id: NodeId { raw: id },
        fields: vec![("depth".to_string(), Scalar::Int(3))],
        guards: Vec::new(),
    }
}

/// A recipe function that returns fixed content, failing the test if the
/// argument shape does not match the declared arity.
struct FixedFunc {
    argc: Option<usize>,
    out: Value,
}

impl RecipeFunc for FixedFunc {
    fn argc(&self) -> Option<usize> {
        self.argc
    }

    fn call(&self, args: Args) -> Result<Value, String> {
        match self.argc {
            Some(0) => assert_eq!(args.items.len(), 0),
            _ => assert_eq!(args.items.len(), 1),
        }
        Ok(self.out.clone())
    }
}

/// A recipe function that echoes its sole argument back, wrapped in content.
struct EchoFunc;

impl RecipeFunc for EchoFunc {
    fn argc(&self) -> Option<usize> {
        Some(1)
    }

    fn call(&self, args: Args) -> Result<Value, String> {
        let arg = args.items.into_iter().next().expect("one argument");
        match arg {
            Value::Dict(pairs) => {
                Ok(Value::Content(Content { id: NodeId { raw: 99 }, fields: pairs, guards: vec![] }))
            }
            other => Err(format!("unexpected argument {:?}", other)),
        }
    }
}

/// A recipe function that always fails.
struct FailFunc;

impl RecipeFunc for FailFunc {
    fn argc(&self) -> Option<usize> {
        Some(0)
    }

    fn call(&self, _args: Args) -> Result<Value, String> {
        Err("boom".to_string())
    }
}

fn content_recipe<F: RecipeFunc>(id: u64, func: F) -> Recipe<F> {
    Recipe { pattern: Pattern::Node(NodeId { raw: id }), func, span: span(11) }
}

#[test]
fn applicable_answers_by_node_identity() {
    let recipe = content_recipe(
        5,
        FixedFunc { argc: Some(0), out: Value::Content(node(5)) },
    );
    let same = node(5);
    let other = node(6);
    assert!(recipe.applicable(Target::Node(&same)));
    assert!(!recipe.applicable(Target::Node(&other)));
}

#[test]
fn apply_on_mismatch_is_not_an_error() {
    let recipe = content_recipe(
        5,
        FixedFunc { argc: Some(0), out: Value::Content(node(5)) },
    );
    let other = node(6);
    let got = recipe.apply(Selector::Nth(0), Target::Node(&other));
    assert_eq!(got, Ok(None));
}

#[test]
fn apply_zero_arity_receives_no_arguments() {
    let recipe = content_recipe(
        5,
        FixedFunc { argc: Some(0), out: Value::Content(node(8)) },
    );
    let target = node(5);
    let got = recipe.apply(Selector::Nth(0), Target::Node(&target)).unwrap().unwrap();
    assert_eq!(got.id, NodeId { raw: 8 });
}

#[test]
fn apply_one_arity_receives_field_encoding() {
    let recipe = content_recipe(5, EchoFunc);
    let target = node(5);
    let got = recipe.apply(Selector::Nth(2), Target::Node(&target)).unwrap().unwrap();
    // The echoed content holds exactly the matched node's declared fields.
    assert_eq!(got.fields, vec![("depth".to_string(), Scalar::Int(3))]);
}

#[test]
fn apply_wraps_output_with_guard() {
    let recipe = content_recipe(5, EchoFunc);
    let target = node(5);
    let sel = Selector::Nth(4);
    let got = recipe.apply(sel, Target::Node(&target)).unwrap().unwrap();
    assert!(got.is_guarded(sel));
    assert!(!got.is_guarded(Selector::Nth(5)));
}

#[test]
fn guarded_output_is_skipped_on_reapplication() {
    // The resolution loop skips a recipe whose selector is guarded on the
    // node under consideration; the same selector therefore never fires
    // twice on its own unmodified output.
    let recipe = content_recipe(99, EchoFunc);
    let target = node(99);
    let sel = Selector::Nth(0);
    let produced = recipe.apply(sel, Target::Node(&target)).unwrap().unwrap();
    assert!(recipe.applicable(Target::Node(&produced)));
    assert!(produced.is_guarded(sel));
    // Another occurrence of the rule stays eligible on the same node.
    assert!(!produced.is_guarded(Selector::Nth(1)));
    assert!(!produced.is_guarded(Selector::Base(NodeId { raw: 99 })));
}

#[test]
fn unguard_clears_only_the_given_selector() {
    let sel_a = Selector::Nth(0);
    let sel_b = Selector::Base(NodeId { raw: 5 });
    let mut c = node(5);
    c.guards = vec![sel_a, sel_b, sel_a];
    let cleared = c.unguard(sel_a);
    assert!(!cleared.is_guarded(sel_a));
    assert!(cleared.is_guarded(sel_b));
    assert_eq!(cleared.guards, vec![sel_b]);
    assert_eq!(cleared.fields, c.fields);
}

#[test]
fn recipe_errors_are_tagged_at_the_recipe_span() {
    let recipe = content_recipe(5, FailFunc);
    let target = node(5);
    let err = recipe.apply(Selector::Nth(0), Target::Node(&target)).unwrap_err();
    assert_eq!(err.span, span(11));
    assert_eq!(err.message, "boom".to_string());
}

#[test]
fn non_content_return_is_a_cast_error_at_the_recipe_span() {
    let recipe = content_recipe(5, FixedFunc { argc: Some(0), out: Value::Int(3) });
    let target = node(5);
    let err = recipe.apply(Selector::Nth(0), Target::Node(&target)).unwrap_err();
    assert_eq!(err.span, span(11));
}

#[test]
fn argument_lists_follow_the_declared_arity() {
    let encoding = Value::Dict(vec![("depth".to_string(), Scalar::Int(3))]);
    let zero = build_args(Some(0), span(1), encoding.clone());
    assert_eq!(zero.span, span(1));
    assert!(zero.items.is_empty());
    let one = build_args(Some(1), span(1), encoding.clone());
    assert_eq!(one.items, vec![encoding.clone()]);
    // An undeclared arity is offered the argument as well.
    let unknown = build_args(None, span(1), encoding.clone());
    assert_eq!(unknown.items, vec![encoding]);
}

#[test]
fn interruption_is_list_for_list_and_enumeration_patterns() {
    let list = Recipe {
        pattern: Pattern::Node(NodeId::list()),
        func: FailFunc,
        span: span(0),
    };
    let enumeration = Recipe {
        pattern: Pattern::Node(NodeId::enumeration()),
        func: FailFunc,
        span: span(0),
    };
    let other = content_recipe(40, FailFunc);
    assert_eq!(list.interruption(), Some(Interruption::List));
    assert_eq!(enumeration.interruption(), Some(Interruption::List));
    assert_eq!(other.interruption(), None);
}
