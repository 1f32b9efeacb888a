//! Symbolic tag expressions and what they evaluate to.
//!
//! An explicit tag may be any constant expression, so tags are carried as
//! expressions and never computed while they are assigned. What a tag is
//! worth is defined against an environment that gives the symbols their
//! values.

use crate::value::TagValue;
use vstd::prelude::*;
use vstd::string::*;

verus! {

/// An expression that a union's author wrote for a tag.
#[derive(Debug)]
pub enum SymbolicExpr {
    /// An integer literal.
    Literal(TagValue),
    /// Any other constant expression, kept as its text.
    Symbol(String),
}

/// The mathematical form of a [`SymbolicExpr`].
pub enum ExprView {
    Literal(int),
    Symbol(Seq<char>),
}

/// The tag assigned to a variant.
#[derive(Debug)]
pub enum TagExpr {
    /// The variant's own expression, unevaluated.
    Explicit(SymbolicExpr),
    /// The sum of a baseline expression and an offset.
    Offset { baseline: SymbolicExpr, offset: u128 },
}

/// The mathematical form of a [`TagExpr`].
pub enum TagView {
    Explicit(ExprView),
    Offset { baseline: ExprView, offset: nat },
}

/// The value of a named constant.
#[derive(Debug)]
pub struct Binding {
    pub name: String,
    pub value: TagValue,
}

/// The values of the symbols that tag expressions refer to. Where a name is
/// bound more than once, the last binding counts.
#[derive(Debug)]
pub struct Bindings {
    pub entries: Vec<Binding>,
}

impl View for SymbolicExpr {
    type V = ExprView;

    open spec fn view(&self) -> ExprView {
        match self {
            SymbolicExpr::Literal(v) => ExprView::Literal(v.value()),
            SymbolicExpr::Symbol(s) => ExprView::Symbol(s@),
        }
    }
}

impl View for TagExpr {
    type V = TagView;

    open spec fn view(&self) -> TagView {
        match self {
            TagExpr::Explicit(e) => TagView::Explicit(e@),
            TagExpr::Offset { baseline, offset } => TagView::Offset {
                baseline: baseline@,
                offset: *offset as nat,
            },
        }
    }
}

/// The map that a list of bindings stands for.
pub open spec fn bound_values(entries: Seq<Binding>) -> Map<Seq<char>, int>
    decreases entries.len(),
{
    if entries.len() == 0 {
        Map::empty()
    } else {
        bound_values(entries.drop_last()).insert(entries.last().name@, entries.last().value.value())
    }
}

impl View for Bindings {
    type V = Map<Seq<char>, int>;

    open spec fn view(&self) -> Map<Seq<char>, int> {
        bound_values(self.entries@)
    }
}

/// The value of an expression, where the environment settles it.
pub open spec fn expr_value(e: ExprView, env: Map<Seq<char>, int>) -> Option<int> {
    match e {
        ExprView::Literal(v) => Some(v),
        ExprView::Symbol(s) => if env.contains_key(s) {
            Some(env[s])
        } else {
            None
        },
    }
}

/// The value of a tag, where the environment settles it.
pub open spec fn tag_value(t: TagView, env: Map<Seq<char>, int>) -> Option<int> {
    match t {
        TagView::Explicit(e) => expr_value(e, env),
        TagView::Offset { baseline, offset } => match expr_value(baseline, env) {
            Some(b) => Some(b + offset),
            None => None,
        },
    }
}

impl Clone for SymbolicExpr {
    fn clone(&self) -> (r: Self)
        ensures
            r == *self,
    {
        match self {
            SymbolicExpr::Literal(v) => SymbolicExpr::Literal(*v),
            SymbolicExpr::Symbol(s) => SymbolicExpr::Symbol(s.clone()),
        }
    }
}

impl Clone for TagExpr {
    fn clone(&self) -> (r: Self)
        ensures
            r == *self,
    {
        match self {
            TagExpr::Explicit(e) => TagExpr::Explicit(e.clone()),
            TagExpr::Offset { baseline, offset } => TagExpr::Offset {
                baseline: baseline.clone(),
                offset: *offset,
            },
        }
    }
}

impl Bindings {
    /// The environment that binds nothing.
    pub fn new() -> (r: Bindings)
        ensures
            r@ == Map::<Seq<char>, int>::empty(),
    {
        Bindings { entries: Vec::new() }
    }

    /// Binds `name` to `value`, in place of what it was bound to before.
    pub fn bind(&mut self, name: &str, value: TagValue)
        ensures
            final(self)@ == old(self)@.insert(name@, value.value()),
    {
        self.entries.push(Binding { name: String::from_str(name), value });
        proof {
            assert(self.entries@.drop_last() == old(self).entries@);
        }
    }

    /// The value that `name` is bound to.
    pub fn get(&self, name: &String) -> (r: Option<TagValue>)
        ensures
            match r {
                Some(v) => self@.contains_key(name@) && self@[name@] == v.value(),
                None => !self@.contains_key(name@),
            },
    {
        let mut i: usize = self.entries.len();
        proof {
            assert(self.entries@.take(i as int) == self.entries@);
        }
        while i > 0
            invariant
                i <= self.entries.len(),
                self@.contains_key(name@) == bound_values(self.entries@.take(i as int)).contains_key(
                    name@,
                ),
                self@.contains_key(name@) ==> self@[name@] == bound_values(
                    self.entries@.take(i as int),
                )[name@],
            decreases i,
        {
            proof {
                assert(self.entries@.take(i as int).drop_last() == self.entries@.take(i - 1));
            }
            i = i - 1;
            if self.entries[i].name == *name {
                return Some(self.entries[i].value);
            }
        }
        None
    }
}

impl SymbolicExpr {
    /// The value of the expression under `env`, or `None` where it names a
    /// symbol that `env` does not bind.
    pub fn evaluate(&self, env: &Bindings) -> (r: Option<TagValue>)
        ensures
            match r {
                Some(v) => expr_value(self@, env@) == Some(v.value()),
                None => expr_value(self@, env@) is None,
            },
    {
        match self {
            SymbolicExpr::Literal(v) => Some(*v),
            SymbolicExpr::Symbol(s) => env.get(s),
        }
    }
}

impl TagExpr {
    /// What the tag is worth under `env`: `None` where it rests on a symbol
    /// that `env` does not bind, or where the sum lies beyond `2^128 - 1`.
    pub fn evaluate(&self, env: &Bindings) -> (r: Option<TagValue>)
        ensures
            match r {
                Some(v) => tag_value(self@, env@) == Some(v.value()),
                None => tag_value(self@, env@) is None || tag_value(self@, env@).unwrap()
                    > u128::MAX,
            },
    {
        match self {
            TagExpr::Explicit(e) => e.evaluate(env),
            TagExpr::Offset { baseline, offset } => match baseline.evaluate(env) {
                Some(b) => {
                    if b.negative {
                        if *offset >= b.magnitude {
                            Some(TagValue { negative: false, magnitude: *offset - b.magnitude })
                        } else {
                            Some(TagValue { negative: true, magnitude: b.magnitude - *offset })
                        }
                    } else if *offset <= u128::MAX - b.magnitude {
                        Some(TagValue { negative: false, magnitude: b.magnitude + *offset })
                    } else {
                        None
                    }
                },
                None => None,
            },
        }
    }

    /// Whether the tag is known to be worth `value` under `env`. A tag over
    /// an unbound symbol is worth nothing that is known, and matches nothing.
    pub fn matches(&self, value: TagValue, env: &Bindings) -> (r: bool)
        ensures
            r == (tag_value(self@, env@) == Some(value.value())),
    {
        match self {
            TagExpr::Explicit(e) => match e.evaluate(env) {
                Some(v) => v.same(value),
                None => false,
            },
            TagExpr::Offset { baseline, offset } => match baseline.evaluate(env) {
                Some(b) => value.is_sum_of(b, *offset),
                None => false,
            },
        }
    }
}

} // verus!
