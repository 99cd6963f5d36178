//! Runtime values and content nodes.
//!
//! `Content` is the tree-node representation the rewrite engine consumes and
//! produces; `Value` is the tagged union of runtime results that the
//! evaluator and the resolver exchange. Declared node properties are held as
//! scalar values, so field lookup and duplication have exact contracts.

use vstd::prelude::*;

use crate::ident::NodeId;
use crate::ident::Selector;

verus! {

/// A scalar runtime value: the shape a declared node property or dictionary
/// entry may take.
#[derive(Debug, Clone, PartialEq)]
pub enum Scalar {
    /// The absent value.
    NoneVal,
    /// The automatic value.
    Auto,
    /// A boolean.
    Bool(bool),
    /// A signed integer.
    Int(i64),
    /// A string.
    Str(String),
}

/// A runtime value exchanged between the evaluator and this core.
#[derive(Debug, Clone, PartialEq)]
pub enum Value {
    /// The absent value.
    NoneVal,
    /// The automatic value.
    Auto,
    /// A boolean.
    Bool(bool),
    /// A signed integer.
    Int(i64),
    /// A string.
    Str(String),
    /// A content tree node.
    Content(Content),
    /// A field-name-to-value mapping.
    Dict(Vec<(String, Scalar)>),
}

/// A content tree node: a node kind, its declared properties, and the style
/// annotations (guards) attached to it.
#[derive(Debug, Clone, PartialEq)]
pub struct Content {
    /// The node kind identity.
    pub id: NodeId,
    /// The declared properties of the node, in declaration order.
    pub fields: Vec<(String, Scalar)>,
    /// The guard markers attached to this node, in attachment order. A guard
    /// for selector `s` records that the recipe occurrence `s` produced this
    /// node, so the resolution loop must not let `s` fire on it again.
    pub guards: Vec<Selector>,
}

impl Scalar {
    /// Makes an owned copy. Unlike a derived clone, the copy is known to
    /// equal the original.
    pub fn duplicate(&self) -> (r: Scalar)
        ensures
            r == *self,
    {
        match self {
            Scalar::NoneVal => Scalar::NoneVal,
            Scalar::Auto => Scalar::Auto,
            Scalar::Bool(b) => Scalar::Bool(*b),
            Scalar::Int(i) => Scalar::Int(*i),
            Scalar::Str(s) => Scalar::Str(s.clone()),
        }
    }

    /// Widens a scalar into a full runtime value.
    pub fn into_value(self) -> (r: Value)
        ensures
            r == self.as_value(),
    {
        match self {
            Scalar::NoneVal => Value::NoneVal,
            Scalar::Auto => Value::Auto,
            Scalar::Bool(b) => Value::Bool(b),
            Scalar::Int(i) => Value::Int(i),
            Scalar::Str(s) => Value::Str(s),
        }
    }

    /// The runtime value a scalar stands for.
    pub open spec fn as_value(self) -> Value {
        match self {
            Scalar::NoneVal => Value::NoneVal,
            Scalar::Auto => Value::Auto,
            Scalar::Bool(b) => Value::Bool(b),
            Scalar::Int(i) => Value::Int(i),
            Scalar::Str(s) => Value::Str(s),
        }
    }
}

/// The first scalar bound to `name` among `pairs`, searched front to back.
pub open spec fn lookup_spec(pairs: Seq<(String, Scalar)>, name: Seq<char>) -> Option<Scalar>
    decreases pairs.len(),
{
    if pairs.len() == 0 {
        Option::None
    } else if pairs[0].0@ == name {
        Option::Some(pairs[0].1)
    } else {
        lookup_spec(pairs.drop_first(), name)
    }
}

/// The result of projecting field `name` out of `v`: defined exactly for
/// dictionaries and content nodes, absent for every other shape.
pub open spec fn field_spec(v: Value, name: Seq<char>) -> Option<Value> {
    match v {
        Value::Dict(pairs) => match lookup_spec(pairs@, name) {
            Option::Some(s) => Option::Some(s.as_value()),
            Option::None => Option::None,
        },
        Value::Content(c) => match lookup_spec(c.fields@, name) {
            Option::Some(s) => Option::Some(s.as_value()),
            Option::None => Option::None,
        },
        _ => Option::None,
    }
}

/// Looks `name` up among `pairs`, front to back.
fn lookup(pairs: &Vec<(String, Scalar)>, name: &String) -> (r: Option<Scalar>)
    ensures
        r == lookup_spec(pairs@, name@),
{
    let mut i: usize = 0;
    proof {
        assert(pairs@.subrange(0, pairs@.len() as int) =~= pairs@);
    }
    while i < pairs.len()
        invariant
            i <= pairs@.len(),
            lookup_spec(pairs@, name@) == lookup_spec(pairs@.subrange(i as int, pairs@.len() as int), name@),
        decreases pairs@.len() - i,
    {
        proof {
            assert(pairs@.subrange(i as int, pairs@.len() as int)[0] == pairs@[i as int]);
        }
        if pairs[i].0 == *name {
            return Some(pairs[i].1.duplicate());
        }
        proof {
            assert(pairs@.subrange(i as int, pairs@.len() as int).drop_first()
                =~= pairs@.subrange(i as int + 1, pairs@.len() as int));
        }
        i = i + 1;
    }
    proof {
        assert(pairs@.subrange(pairs@.len() as int, pairs@.len() as int).len() == 0);
    }
    None
}

impl Value {
    /// Projects a field out of this value: a dictionary or content node with
    /// an entry of that name yields the entry's value; every other shape, or
    /// an absent entry, yields nothing rather than an error.
    pub fn field(&self, name: &str) -> (r: Option<Value>)
        ensures
            r == field_spec(*self, name@),
    {
        let owned = name.to_owned();
        match self {
            Value::Dict(pairs) => match lookup(pairs, &owned) {
                Some(s) => Some(s.into_value()),
                None => None,
            },
            Value::Content(c) => match lookup(&c.fields, &owned) {
                Some(s) => Some(s.into_value()),
                None => None,
            },
            _ => None,
        }
    }
}

/// Makes an owned copy of a property list. The copy's entries are known to
/// equal the original's.
pub fn duplicate_fields(fields: &Vec<(String, Scalar)>) -> (r: Vec<(String, Scalar)>)
    ensures
        r@ == fields@,
{
    let mut out: Vec<(String, Scalar)> = Vec::new();
    let mut i: usize = 0;
    while i < fields.len()
        invariant
            i <= fields@.len(),
            out@ =~= fields@.subrange(0, i as int),
        decreases fields@.len() - i,
    {
        out.push((fields[i].0.clone(), fields[i].1.duplicate()));
        i = i + 1;
    }
    proof {
        assert(fields@.subrange(0, fields@.len() as int) =~= fields@);
    }
    out
}

/// The guard list `guards` with every occurrence of `sel` removed and every
/// other marker kept in order.
pub open spec fn without_spec(guards: Seq<Selector>, sel: Selector) -> Seq<Selector>
    decreases guards.len(),
{
    if guards.len() == 0 {
        Seq::empty()
    } else {
        let rest = without_spec(guards.drop_last(), sel);
        if guards.last() == sel {
            rest
        } else {
            rest.push(guards.last())
        }
    }
}

/// Clearing one selector's guards never touches another selector's: after
/// `without_spec(guards, sel)`, any selector other than `sel` is present
/// exactly where it was before, and `sel` itself is gone.
pub proof fn lemma_without_scoping(guards: Seq<Selector>, sel: Selector, other: Selector)
    ensures
        !without_spec(guards, sel).contains(sel),
        other != sel ==> (without_spec(guards, sel).contains(other) <==> guards.contains(other)),
    decreases guards.len(),
{
    if guards.len() == 0 {
        assert(!without_spec(guards, sel).contains(sel));
        if guards.contains(other) {
            let i = choose|i: int| 0 <= i < guards.len() && guards[i] == other;
            assert(false);
        }
    } else {
        lemma_without_scoping(guards.drop_last(), sel, other);
        let rest = without_spec(guards.drop_last(), sel);
        if guards.last() == sel {
            assert(without_spec(guards, sel) == rest);
            if other != sel {
                if guards.contains(other) {
                    let i = choose|i: int| 0 <= i < guards.len() && guards[i] == other;
                    assert(i < guards.len() - 1);
                    assert(guards.drop_last()[i] == other);
                    assert(guards.drop_last().contains(other));
                }
                if guards.drop_last().contains(other) {
                    let i = choose|i: int|
                        0 <= i < guards.drop_last().len() && guards.drop_last()[i] == other;
                    assert(guards[i] == other);
                    assert(guards.contains(other));
                }
            }
        } else {
            assert(without_spec(guards, sel) == rest.push(guards.last()));
            if rest.push(guards.last()).contains(sel) {
                let i = choose|i: int|
                    0 <= i < rest.len() + 1 && rest.push(guards.last())[i] == sel;
                assert(i < rest.len());
                assert(rest.contains(sel));
            }
            if other != sel {
                if guards.contains(other) {
                    let i = choose|i: int| 0 <= i < guards.len() && guards[i] == other;
                    if i < guards.len() - 1 {
                        assert(guards.drop_last()[i] == other);
                        assert(guards.drop_last().contains(other));
                        let j = choose|j: int| 0 <= j < rest.len() && rest[j] == other;
                        assert(rest.push(guards.last())[j] == other);
                    } else {
                        assert(guards.last() == other);
                        assert(rest.push(guards.last())[rest.len() as int] == other);
                    }
                    assert(without_spec(guards, sel).contains(other));
                }
                if rest.push(guards.last()).contains(other) {
                    let i = choose|i: int|
                        0 <= i < rest.len() + 1 && rest.push(guards.last())[i] == other;
                    if i < rest.len() {
                        assert(rest.contains(other));
                        assert(guards.drop_last().contains(other));
                        let j = choose|j: int|
                            0 <= j < guards.drop_last().len() && guards.drop_last()[j] == other;
                        assert(guards[j] == other);
                    } else {
                        assert(guards.last() == other);
                        assert(guards[guards.len() - 1] == other);
                    }
                    assert(guards.contains(other));
                }
            }
        }
    }
}

impl Content {
    /// Whether this node carries a guard for `sel`. The external resolution
    /// loop skips a recipe occurrence exactly when its selector is guarded
    /// here, so the occurrence never re-fires on its own output.
    pub fn is_guarded(&self, sel: Selector) -> (r: bool)
        ensures
            r == self.guards@.contains(sel),
    {
        let mut i: usize = 0;
        while i < self.guards.len()
            invariant
                i <= self.guards@.len(),
                forall|j: int| 0 <= j < i ==> self.guards@[j] != sel,
            decreases self.guards@.len() - i,
        {
            if self.guards[i] == sel {
                return true;
            }
            i = i + 1;
        }
        false
    }

    /// A copy of this node with every guard for `sel` cleared and every
    /// guard for any other selector kept, in order.
    pub fn unguard(&self, sel: Selector) -> (r: Content)
        ensures
            r.id == self.id,
            r.fields@ == self.fields@,
            r.guards@ == without_spec(self.guards@, sel),
    {
        let mut kept: Vec<Selector> = Vec::new();
        let mut i: usize = 0;
        while i < self.guards.len()
            invariant
                i <= self.guards@.len(),
                kept@ == without_spec(self.guards@.subrange(0, i as int), sel),
            decreases self.guards@.len() - i,
        {
            proof {
                let pre = self.guards@.subrange(0, i as int);
                let cur = self.guards@.subrange(0, i as int + 1);
                assert(cur.drop_last() =~= pre);
                assert(cur.last() == self.guards@[i as int]);
            }
            if !(self.guards[i] == sel) {
                kept.push(self.guards[i]);
            }
            i = i + 1;
        }
        proof {
            assert(self.guards@.subrange(0, self.guards@.len() as int) =~= self.guards@);
        }
        Content { id: self.id, fields: duplicate_fields(&self.fields), guards: kept }
    }

    /// Encodes the node's declared properties as a field-name-to-value
    /// mapping: the argument shape handed to a one-argument recipe function.
    pub fn encode(&self) -> (r: Value)
        ensures
            r matches Value::Dict(pairs) && pairs@ == self.fields@,
    {
        Value::Dict(duplicate_fields(&self.fields))
    }

    /// This node with a guard for `sel` attached: the marker recording that
    /// the recipe occurrence `sel` produced it.
    pub fn styled_with_guard(self, sel: Selector) -> (r: Content)
        ensures
            r.id == self.id,
            r.fields@ == self.fields@,
            r.guards@ == self.guards@.push(sel),
            r.guards@.contains(sel),
    {
        let mut c = self;
        c.guards.push(sel);
        proof {
            assert(c.guards@[c.guards@.len() - 1] == sel);
        }
        c
    }
}

} // verus!
