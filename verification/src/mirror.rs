//! The payload-free mirror of a union, the lookup from a raw tag value to a
//! mirror variant, and the projection from a value of the union to its mirror
//! variant.

use crate::assign::TagAssignment;
use crate::expr::{tag_value, Bindings, TagExpr, TagView};
use crate::search::{first_hit, lemma_first_hit_is, lemma_first_hit_none};
use crate::union_def::{Pattern, Variant, Visibility};
use crate::value::TagValue;
use vstd::prelude::*;
use vstd::string::*;

verus! {

/// One variant of the mirror type: always a unit, with the tag expression of
/// the variant it mirrors.
#[derive(Debug)]
pub struct MirrorVariant {
    pub name: String,
    pub tag: TagExpr,
    pub doc: String,
}

/// The mirror of a union: the same variants and tags, without payloads.
#[derive(Debug)]
pub struct MirrorType {
    pub name: String,
    pub visibility: Visibility,
    pub doc: String,
    pub variants: Vec<MirrorVariant>,
}

/// One case of the projection.
#[derive(Debug)]
pub enum ProjectionArm {
    /// Accepts the values of the named variant, whatever their fields hold.
    Variant { variant_name: String, pattern: Pattern },
    /// The only case of a union without variants, which has no value.
    Unreachable,
}

/// A value of a union, seen without what its fields hold: the variant it is
/// of and the shape of its payload.
#[derive(Debug)]
pub struct Instance {
    pub variant_name: String,
    pub pattern: Pattern,
}

/// The name of the mirror of the union called `union_name`.
pub open spec fn mirror_name_text(union_name: Seq<char>) -> Seq<char> {
    union_name + "_"@
}

/// The documentation of the mirror type.
pub open spec fn mirror_doc_text(union_name: Seq<char>) -> Seq<char> {
    "Fieldless representations of ["@ + union_name
        + "]. Used to extract discriminants without fully constructing the enum."@
}

/// The documentation of one mirror variant.
pub open spec fn variant_doc_text(union_name: Seq<char>, variant_name: Seq<char>) -> Seq<char> {
    "A fieldless version of ["@ + union_name + "::"@ + variant_name
        + "], used to extract the variant's discriminant without needing to fully construct it."@
}

/// Whether `mirror` is the mirror of the union with the given name,
/// visibility and tag assignments.
pub open spec fn is_mirror_of(
    mirror: MirrorType,
    union_name: Seq<char>,
    visibility: Visibility,
    assignments: Seq<TagAssignment>,
) -> bool {
    &&& mirror.name@ == mirror_name_text(union_name)
    &&& mirror.visibility == visibility
    &&& mirror.doc@ == mirror_doc_text(union_name)
    &&& mirror.variants.len() == assignments.len()
    &&& forall|i: int|
        0 <= i < assignments.len() ==> {
            &&& (#[trigger] mirror.variants[i]).name@ == assignments[i].variant_name@
            &&& mirror.variants[i].tag == assignments[i].tag
            &&& mirror.variants[i].doc@ == variant_doc_text(
                union_name,
                assignments[i].variant_name@,
            )
        }
}

/// The tags of the mirror variants, in order.
pub open spec fn mirror_tags(variants: Seq<MirrorVariant>) -> Seq<TagView> {
    Seq::new(variants.len(), |i: int| variants[i].tag@)
}

/// For each tag, whether it is known to be worth `value` under `env`.
pub open spec fn tag_hits(tags: Seq<TagView>, value: int, env: Map<Seq<char>, int>) -> Seq<bool> {
    Seq::new(tags.len(), |i: int| tag_value(tags[i], env) == Some(value))
}

/// The position of the first tag worth `value`, if there is one.
pub open spec fn lookup_outcome(tags: Seq<TagView>, value: int, env: Map<Seq<char>, int>) -> Option<
    int,
> {
    first_hit(tag_hits(tags, value, env))
}

/// Whether an arm accepts an instance: it is for the instance's variant, and
/// the payload has the pattern's kind and number of fields.
pub open spec fn accepts(arm: ProjectionArm, instance: Instance) -> bool {
    match arm {
        ProjectionArm::Variant { variant_name, pattern } => variant_name@ == instance.variant_name@
            && pattern == instance.pattern,
        ProjectionArm::Unreachable => false,
    }
}

/// For each arm, whether it accepts the instance.
pub open spec fn arm_hits(arms: Seq<ProjectionArm>, instance: Instance) -> Seq<bool> {
    Seq::new(arms.len(), |i: int| accepts(arms[i], instance))
}

/// The position of the first arm that accepts the instance, if one does.
pub open spec fn projection_outcome(arms: Seq<ProjectionArm>, instance: Instance) -> Option<int> {
    first_hit(arm_hits(arms, instance))
}

/// Whether `arms` are the cases of the projection for `variants`: one for
/// each variant, in order, or the single unreachable case where there is no
/// variant.
pub open spec fn are_projection_arms_of(arms: Seq<ProjectionArm>, variants: Seq<Variant>) -> bool {
    if variants.len() == 0 {
        arms.len() == 1 && arms[0] is Unreachable
    } else {
        &&& arms.len() == variants.len()
        &&& forall|i: int|
            0 <= i < variants.len() ==> match #[trigger] arms[i] {
                ProjectionArm::Variant { variant_name, pattern } => variant_name@
                    == variants[i].name@ && pattern == variants[i].shape.pattern_of(),
                ProjectionArm::Unreachable => false,
            }
    }
}

/// Whether `instance` is a value of the variant at `i`.
pub open spec fn is_instance_of(instance: Instance, variants: Seq<Variant>, i: int) -> bool {
    &&& 0 <= i < variants.len()
    &&& instance.variant_name@ == variants[i].name@
    &&& instance.pattern == variants[i].shape.pattern_of()
}

/// Builds the mirror type of the union called `union_name`: its name with a
/// trailing underscore, the same visibility, and one unit variant for each
/// assignment, with the same name and the very same tag expression.
pub fn mirror_type(union_name: &str, visibility: &Visibility, assignments: &Vec<TagAssignment>) -> (r:
    MirrorType)
    ensures
        is_mirror_of(r, union_name@, *visibility, assignments@),
{
    let n = assignments.len();
    let mut variants: Vec<MirrorVariant> = Vec::new();
    let mut i: usize = 0;
    while i < n
        invariant
            i <= n,
            n == assignments.len(),
            variants.len() == i,
            forall|j: int|
                0 <= j < i ==> {
                    &&& (#[trigger] variants[j]).name@ == assignments[j].variant_name@
                    &&& variants[j].tag == assignments[j].tag
                    &&& variants[j].doc@ == variant_doc_text(
                        union_name@,
                        assignments[j].variant_name@,
                    )
                },
        decreases n - i,
    {
        let assignment = &assignments[i];
        let doc = String::from_str("A fieldless version of [").concat(union_name).concat(
            "::",
        ).concat(assignment.variant_name.as_str()).concat(
            "], used to extract the variant's discriminant without needing to fully construct it.",
        );
        variants.push(
            MirrorVariant {
                name: assignment.variant_name.clone(),
                tag: assignment.tag.clone(),
                doc,
            },
        );
        i = i + 1;
    }
    MirrorType {
        name: String::from_str(union_name).concat("_"),
        visibility: visibility.clone(),
        doc: String::from_str("Fieldless representations of [").concat(union_name).concat(
            "]. Used to extract discriminants without fully constructing the enum.",
        ),
        variants,
    }
}

impl MirrorType {
    /// The mirror variant whose tag is worth `value`: the first in
    /// declaration order where several are, `None` where none is.
    pub fn lookup(&self, value: TagValue, env: &Bindings) -> (r: Option<usize>)
        ensures
            match r {
                Some(i) => lookup_outcome(mirror_tags(self.variants@), value.value(), env@)
                    == Some(i as int),
                None => lookup_outcome(mirror_tags(self.variants@), value.value(), env@) is None,
            },
    {
        let ghost hits = tag_hits(mirror_tags(self.variants@), value.value(), env@);
        let n = self.variants.len();
        let mut i: usize = 0;
        while i < n
            invariant
                i <= n,
                n == self.variants.len(),
                hits == tag_hits(mirror_tags(self.variants@), value.value(), env@),
                forall|j: int| 0 <= j < i ==> !hits[j],
            decreases n - i,
        {
            if self.variants[i].tag.matches(value, env) {
                proof {
                    lemma_first_hit_is(hits, i as int);
                }
                return Some(i);
            }
            i = i + 1;
        }
        proof {
            lemma_first_hit_none(hits);
        }
        None
    }
}

/// Builds the cases of the projection: one for each variant, in order, that
/// tells the variant by its name and the shape of its payload; for a union
/// without variants, the single unreachable case.
pub fn projection_arms(variants: &Vec<Variant>) -> (r: Vec<ProjectionArm>)
    ensures
        are_projection_arms_of(r@, variants@),
{
    let n = variants.len();
    let mut arms: Vec<ProjectionArm> = Vec::new();
    if n == 0 {
        arms.push(ProjectionArm::Unreachable);
        return arms;
    }
    let mut i: usize = 0;
    while i < n
        invariant
            i <= n,
            n == variants.len(),
            arms.len() == i,
            forall|j: int|
                0 <= j < i ==> match #[trigger] arms[j] {
                    ProjectionArm::Variant { variant_name, pattern } => variant_name@
                        == variants[j].name@ && pattern == variants[j].shape.pattern_of(),
                    ProjectionArm::Unreachable => false,
                },
        decreases n - i,
    {
        let variant = &variants[i];
        arms.push(
            ProjectionArm::Variant {
                variant_name: variant.name.clone(),
                pattern: variant.shape.pattern(),
            },
        );
        i = i + 1;
    }
    arms
}

impl ProjectionArm {
    /// Whether the arm accepts the instance.
    pub fn accepts_instance(&self, instance: &Instance) -> (r: bool)
        ensures
            r == accepts(*self, *instance),
    {
        match self {
            ProjectionArm::Variant { variant_name, pattern } => *variant_name
                == instance.variant_name && *pattern == instance.pattern,
            ProjectionArm::Unreachable => false,
        }
    }
}

/// Projects a value of the union to its mirror variant: the position of the
/// first case that accepts it. `None` where no case does, which is so for
/// every instance of a union without variants.
pub fn project(arms: &Vec<ProjectionArm>, instance: &Instance) -> (r: Option<usize>)
    ensures
        match r {
            Some(i) => projection_outcome(arms@, *instance) == Some(i as int),
            None => projection_outcome(arms@, *instance) is None,
        },
{
    let ghost hits = arm_hits(arms@, *instance);
    let n = arms.len();
    let mut i: usize = 0;
    while i < n
        invariant
            i <= n,
            n == arms.len(),
            hits == arm_hits(arms@, *instance),
            forall|j: int| 0 <= j < i ==> !hits[j],
        decreases n - i,
    {
        if arms[i].accepts_instance(instance) {
            proof {
                lemma_first_hit_is(hits, i as int);
            }
            return Some(i);
        }
        i = i + 1;
    }
    proof {
        lemma_first_hit_none(hits);
    }
    None
}

} // verus!
