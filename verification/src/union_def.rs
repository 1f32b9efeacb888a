//! The definition of a tagged union, as the engine reads it.

use crate::expr::SymbolicExpr;
use vstd::prelude::*;
use vstd::string::*;

verus! {

/// Who may see a declaration.
#[derive(Debug)]
pub enum Visibility {
    /// No visibility was written.
    Inherited,
    /// Visible everywhere.
    Public,
    /// Visible within the given scope, kept as its text.
    Restricted(String),
}

/// What a variant carries.
#[derive(Debug)]
pub enum Shape {
    /// Nothing.
    Unit,
    /// Fields with names, in order.
    Named(Vec<String>),
    /// This many fields without names.
    Positional(usize),
}

/// The kind of a shape, without its fields.
#[derive(Clone, Copy, Debug, PartialEq, Eq, Structural)]
pub enum ShapeKind {
    Unit,
    Named,
    Positional,
}

/// What a match arm needs to know of a shape: its kind and how many fields
/// it has.
#[derive(Clone, Copy, Debug, PartialEq, Eq, Structural)]
pub struct Pattern {
    pub kind: ShapeKind,
    pub arity: usize,
}

/// One variant of a union.
#[derive(Debug)]
pub struct Variant {
    pub name: String,
    pub shape: Shape,
    /// The tag that the variant declares, if it declares one.
    pub explicit_tag: Option<SymbolicExpr>,
}

/// A tagged union: its name, its visibility and its variants in declaration
/// order.
#[derive(Debug)]
pub struct UnionDefinition {
    pub name: String,
    pub visibility: Visibility,
    pub variants: Vec<Variant>,
}

/// Two variants of a union have the same name.
#[derive(Debug)]
pub struct DuplicateVariant {
    /// The position of the first variant that repeats an earlier name.
    pub variant_index: usize,
    /// The repeated name.
    pub variant_name: String,
}

/// Whether `e` reports the first variant of `variants` that has the name of
/// an earlier one.
pub open spec fn is_first_duplicate(e: DuplicateVariant, variants: Seq<Variant>) -> bool {
    &&& e.variant_index < variants.len()
    &&& e.variant_name@ == variants[e.variant_index as int].name@
    &&& repeats_earlier_name(variants, e.variant_index as int)
    &&& names_unique(variants.take(e.variant_index as int))
}

/// The message of a repeated variant name.
pub open spec fn duplicate_text(union_name: Seq<char>, variant_name: Seq<char>) -> Seq<char> {
    "The variant `"@ + variant_name + "` is defined more than once in `"@ + union_name + "`"@
}

/// Whether no two variants have the same name.
pub open spec fn names_unique(variants: Seq<Variant>) -> bool {
    forall|i: int, j: int|
        0 <= i < j < variants.len() ==> (#[trigger] variants[i]).name@ != (
        #[trigger] variants[j]).name@
}

/// Whether the variant at `j` has the name of a variant before it.
pub open spec fn repeats_earlier_name(variants: Seq<Variant>, j: int) -> bool {
    exists|i: int| 0 <= i < j && (#[trigger] variants[i]).name@ == variants[j].name@
}

impl Clone for Visibility {
    fn clone(&self) -> (r: Self)
        ensures
            r == *self,
    {
        match self {
            Visibility::Inherited => Visibility::Inherited,
            Visibility::Public => Visibility::Public,
            Visibility::Restricted(scope) => Visibility::Restricted(scope.clone()),
        }
    }
}

impl Shape {
    /// The shape's kind and number of fields.
    pub open spec fn pattern_of(self) -> Pattern {
        match self {
            Shape::Unit => Pattern { kind: ShapeKind::Unit, arity: 0 },
            Shape::Named(fields) => Pattern { kind: ShapeKind::Named, arity: fields@.len() as usize },
            Shape::Positional(count) => Pattern { kind: ShapeKind::Positional, arity: count },
        }
    }

    /// The shape's kind and number of fields.
    pub fn pattern(&self) -> (r: Pattern)
        ensures
            r == self.pattern_of(),
    {
        match self {
            Shape::Unit => Pattern { kind: ShapeKind::Unit, arity: 0 },
            Shape::Named(fields) => Pattern { kind: ShapeKind::Named, arity: fields.len() },
            Shape::Positional(count) => Pattern { kind: ShapeKind::Positional, arity: *count },
        }
    }
}

impl DuplicateVariant {
    /// The text that reports the error for the union called `union_name`.
    pub fn message(&self, union_name: &str) -> (r: String)
        ensures
            r@ == duplicate_text(union_name@, self.variant_name@),
    {
        String::from_str("The variant `").concat(self.variant_name.as_str()).concat(
            "` is defined more than once in `",
        ).concat(union_name).concat("`")
    }
}

impl UnionDefinition {
    /// Whether the definition is well formed: its variants' names differ.
    pub open spec fn well_formed(&self) -> bool {
        names_unique(self.variants@)
    }

    /// A well-formed definition of the given parts, or the first variant
    /// that repeats a name.
    pub fn new(name: String, visibility: Visibility, variants: Vec<Variant>) -> (r: Result<
        UnionDefinition,
        DuplicateVariant,
    >)
        ensures
            match r {
                Ok(definition) => {
                    &&& definition.well_formed()
                    &&& definition.name == name
                    &&& definition.visibility == visibility
                    &&& definition.variants == variants
                },
                Err(e) => is_first_duplicate(e, variants@),
            },
    {
        let definition = UnionDefinition { name, visibility, variants };
        match definition.first_repeated_name() {
            Some(j) => Err(
                DuplicateVariant {
                    variant_index: j,
                    variant_name: definition.variants[j].name.clone(),
                },
            ),
            None => Ok(definition),
        }
    }

    /// The first variant whose name an earlier variant has, or `None` for a
    /// well-formed definition.
    pub fn first_repeated_name(&self) -> (r: Option<usize>)
        ensures
            match r {
                None => self.well_formed(),
                Some(j) => {
                    &&& j < self.variants.len()
                    &&& repeats_earlier_name(self.variants@, j as int)
                    &&& names_unique(self.variants@.take(j as int))
                },
            },
    {
        let n = self.variants.len();
        let mut j: usize = 0;
        while j < n
            invariant
                j <= n,
                n == self.variants.len(),
                names_unique(self.variants@.take(j as int)),
            decreases n - j,
        {
            let mut i: usize = 0;
            while i < j
                invariant
                    i <= j,
                    j < n,
                    n == self.variants.len(),
                    names_unique(self.variants@.take(j as int)),
                    forall|k: int| 0 <= k < i ==> (#[trigger] self.variants[k]).name@ != self.variants[j as int].name@,
                decreases j - i,
            {
                if self.variants[i].name == self.variants[j].name {
                    proof {
                        assert(self.variants@[i as int].name@ == self.variants@[j as int].name@);
                    }
                    return Some(j);
                }
                i = i + 1;
            }
            proof {
                let before = self.variants@.take(j as int);
                let after = self.variants@.take(j + 1);
                assert forall|a: int, b: int| 0 <= a < b < after.len() implies (#[trigger] after[a]).name@
                    != (#[trigger] after[b]).name@ by {
                    if b < j {
                        assert(before[a].name@ != before[b].name@);
                    }
                }
            }
            j = j + 1;
        }
        proof {
            assert(self.variants@.take(n as int) == self.variants@);
        }
        None
    }
}

} // verus!
