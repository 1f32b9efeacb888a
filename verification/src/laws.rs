//! What holds of every tag assignment, lookup and projection.

use crate::assign::{
    anchor, explicit_tags, fits, is_assignment_of, is_assignment_outcome, tag_at, OverflowError,
    TagAssignment,
};
use crate::engine::{is_generation_outcome, Generated, GenerationError};
use crate::expr::{expr_value, tag_value, ExprView, TagView};
use crate::mirror::{
    are_projection_arms_of, arm_hits, is_instance_of, is_mirror_of, lookup_outcome, mirror_tags,
    projection_outcome, tag_hits, Instance, MirrorType, ProjectionArm,
};
use crate::representation::Representation;
use crate::search::{lemma_first_hit_is, lemma_first_hit_none};
use crate::union_def::{
    is_first_duplicate, names_unique, DuplicateVariant, UnionDefinition, Variant, Visibility,
};
use vstd::prelude::*;

verus! {

/// Where no variant up to `i` declares a tag, there is no anchor at `i`.
proof fn lemma_no_anchor(tags: Seq<Option<ExprView>>, i: int)
    requires
        -1 <= i < tags.len(),
        forall|j: int| 0 <= j <= i ==> tags[j] is None,
    ensures
        anchor(tags, i) == -1,
    decreases i + 1,
{
    if i >= 0 {
        lemma_no_anchor(tags, i - 1);
    }
}

/// A declared tag stays the anchor for as long as no other tag is declared.
proof fn lemma_anchor_holds(tags: Seq<Option<ExprView>>, start: int, m: int)
    requires
        0 <= start,
        0 <= m,
        start + m < tags.len(),
        tags[start] is Some,
        forall|j: int| start < j <= start + m ==> tags[j] is None,
    ensures
        anchor(tags, start + m) == start,
    decreases m,
{
    if m > 0 {
        lemma_anchor_holds(tags, start, m - 1);
    }
}

/// Variants of which one repeats an earlier name do not have distinct names.
proof fn lemma_duplicate_is_not_unique(e: DuplicateVariant, variants: Seq<Variant>)
    requires
        is_first_duplicate(e, variants),
    ensures
        !names_unique(variants),
{
    let at = e.variant_index as int;
    let before = choose|w: int| 0 <= w < at && (#[trigger] variants[w]).name@ == variants[at].name@;
    assert(variants[before].name@ == variants[at].name@);
}

/// Only one variant is the first to repeat an earlier name.
proof fn lemma_first_duplicate_is_one(a: DuplicateVariant, b: DuplicateVariant, variants: Seq<Variant>)
    requires
        is_first_duplicate(a, variants),
        is_first_duplicate(b, variants),
    ensures
        a.variant_index == b.variant_index,
{
    let (x, y) = (a.variant_index as int, b.variant_index as int);
    if x < y {
        let w = choose|w: int| 0 <= w < x && (#[trigger] variants[w]).name@ == variants[x].name@;
        assert(variants.take(y)[w].name@ == variants.take(y)[x].name@);
    } else if y < x {
        let w = choose|w: int| 0 <= w < y && (#[trigger] variants[w]).name@ == variants[y].name@;
        assert(variants.take(x)[w].name@ == variants.take(x)[y].name@);
    }
}

/// A variant that declares a tag is assigned that very expression, and its
/// assignment never overflows. Where every variant declares a literal, every
/// assigned tag is worth its literal and the assignment succeeds.
pub proof fn law_explicit_literals_are_kept(
    representation: Representation,
    variants: Seq<Variant>,
    env: Map<Seq<char>, int>,
)
    requires
        forall|i: int|
            0 <= i < variants.len() ==> (#[trigger] explicit_tags(variants)[i]) is Some
                && explicit_tags(variants)[i].unwrap() is Literal,
    ensures
        forall|i: int|
            0 <= i < variants.len() ==> {
                &&& #[trigger] tag_at(explicit_tags(variants), i) == TagView::Explicit(
                    explicit_tags(variants)[i].unwrap(),
                )
                &&& tag_value(tag_at(explicit_tags(variants), i), env) == Some(
                    explicit_tags(variants)[i].unwrap()->Literal_0,
                )
                &&& fits(representation, explicit_tags(variants), i)
            },
{
    let tags = explicit_tags(variants);
    assert forall|i: int| 0 <= i < variants.len() implies {
        &&& #[trigger] tag_at(tags, i) == TagView::Explicit(tags[i].unwrap())
        &&& tag_value(tag_at(tags, i), env) == Some(tags[i].unwrap()->Literal_0)
        &&& fits(representation, tags, i)
    } by {
        assert(tags[i] is Some && tags[i].unwrap() is Literal);
        assert(anchor(tags, i) == i);
    }
}

/// Where no variant declares a tag, the tags are worth `0, 1, 2, ...` in
/// declaration order, whatever the environment, and the variant at `i` fits
/// exactly where `i` is no more than the representation's largest value.
pub proof fn law_implicit_tags_count_from_zero(
    representation: Representation,
    variants: Seq<Variant>,
    env: Map<Seq<char>, int>,
)
    requires
        forall|i: int| 0 <= i < variants.len() ==> (#[trigger] explicit_tags(variants)[i]) is None,
    ensures
        forall|i: int|
            0 <= i < variants.len() ==> {
                &&& tag_value(#[trigger] tag_at(explicit_tags(variants), i), env) == Some(i)
                &&& fits(representation, explicit_tags(variants), i) == (i
                    <= representation.max_value())
            },
{
    let tags = explicit_tags(variants);
    assert forall|i: int| 0 <= i < variants.len() implies {
        &&& tag_value(#[trigger] tag_at(tags, i), env) == Some(i)
        &&& fits(representation, tags, i) == (i <= representation.max_value())
    } by {
        lemma_no_anchor(tags, i);
        assert(tags[i] is None);
    }
}

/// The variants before the first declared tag are worth `0, 1, 2, ...`: the
/// first variant of a union is at zero unless it declares otherwise.
pub proof fn law_leading_run_counts_from_zero(
    variants: Seq<Variant>,
    env: Map<Seq<char>, int>,
    length: int,
)
    requires
        0 <= length <= variants.len(),
        forall|j: int| 0 <= j < length ==> (#[trigger] explicit_tags(variants)[j]) is None,
    ensures
        forall|i: int|
            0 <= i < length ==> tag_value(#[trigger] tag_at(explicit_tags(variants), i), env)
                == Some(i),
{
    let tags = explicit_tags(variants);
    assert forall|i: int| 0 <= i < length implies tag_value(#[trigger] tag_at(tags, i), env)
        == Some(i) by {
        lemma_no_anchor(tags, i);
        assert(tags[i] is None);
    }
}

/// The `k` variants without a declared tag that follow a variant whose
/// declared tag is worth `t` are worth `t + 1, t + 2, ..., t + k`.
pub proof fn law_implicit_run_follows_baseline(
    variants: Seq<Variant>,
    env: Map<Seq<char>, int>,
    start: int,
    k: int,
    t: int,
)
    requires
        0 <= start,
        0 <= k,
        start + k < variants.len(),
        explicit_tags(variants)[start] is Some,
        expr_value(explicit_tags(variants)[start].unwrap(), env) == Some(t),
        forall|j: int| start < j <= start + k ==> (#[trigger] explicit_tags(variants)[j]) is None,
    ensures
        tag_value(tag_at(explicit_tags(variants), start), env) == Some(t),
        forall|m: int|
            1 <= m <= k ==> tag_value(#[trigger] tag_at(explicit_tags(variants), start + m), env)
                == Some(t + m),
{
    let tags = explicit_tags(variants);
    assert forall|m: int| 1 <= m <= k implies tag_value(#[trigger] tag_at(tags, start + m), env)
        == Some(t + m) by {
        assert(tags[start + m] is None);
        lemma_anchor_holds(tags, start, m);
    }
}

/// Tag assignment has one outcome: any two results for the same
/// representation and variants succeed or fail together, with the same tags
/// under the same names, or at the same variant.
pub proof fn law_assignment_is_deterministic(
    representation: Representation,
    variants: Seq<Variant>,
    first: Result<Vec<TagAssignment>, OverflowError>,
    second: Result<Vec<TagAssignment>, OverflowError>,
)
    requires
        is_assignment_outcome(representation, variants, first),
        is_assignment_outcome(representation, variants, second),
    ensures
        match (first, second) {
            (Ok(a), Ok(b)) => {
                &&& a.len() == b.len()
                &&& forall|i: int|
                    0 <= i < a.len() ==> (#[trigger] a[i]).tag@ == b[i].tag@ && a[i].variant_name@
                        == b[i].variant_name@
            },
            (Err(a), Err(b)) => a.variant_index == b.variant_index && a.variant_name@
                == b.variant_name@ && a.representation == b.representation,
            _ => false,
        },
{
}

/// Generation has one outcome: any two results for the same token and
/// definition succeed together, with the same representation, the same tags
/// and the same mirror variants, or fail together with the same error.
pub proof fn law_generation_is_deterministic(
    token: Seq<char>,
    definition: UnionDefinition,
    first: Result<Generated, GenerationError>,
    second: Result<Generated, GenerationError>,
)
    requires
        is_generation_outcome(token, definition, first),
        is_generation_outcome(token, definition, second),
    ensures
        match (first, second) {
            (Ok(a), Ok(b)) => {
                &&& a.representation == b.representation
                &&& a.assignments.len() == b.assignments.len()
                &&& a.mirror.name@ == b.mirror.name@
                &&& a.mirror.variants.len() == b.mirror.variants.len()
                &&& forall|i: int|
                    0 <= i < a.assignments.len() ==> {
                        &&& (#[trigger] a.assignments[i]).tag@ == b.assignments[i].tag@
                        &&& a.assignments[i].variant_name@ == b.assignments[i].variant_name@
                        &&& a.mirror.variants[i].tag@ == b.mirror.variants[i].tag@
                        &&& a.mirror.variants[i].name@ == b.mirror.variants[i].name@
                    }
            },
            (Err(GenerationError::Configuration(a)), Err(GenerationError::Configuration(b))) => {
                a.token@ == b.token@ && a.union_name@ == b.union_name@
            },
            (Err(GenerationError::Malformed(a)), Err(GenerationError::Malformed(b))) => {
                a.variant_index == b.variant_index && a.variant_name@ == b.variant_name@
            },
            (Err(GenerationError::Overflow(a)), Err(GenerationError::Overflow(b))) => {
                a.variant_index == b.variant_index && a.variant_name@ == b.variant_name@
                    && a.representation == b.representation
            },
            _ => false,
        },
{
    match (first, second) {
        (Ok(a), Ok(b)) => {
            assert forall|i: int| 0 <= i < a.assignments.len() implies {
                &&& (#[trigger] a.assignments[i]).tag@ == b.assignments[i].tag@
                &&& a.assignments[i].variant_name@ == b.assignments[i].variant_name@
                &&& a.mirror.variants[i].tag@ == b.mirror.variants[i].tag@
                &&& a.mirror.variants[i].name@ == b.mirror.variants[i].name@
            } by {
                assert(a.mirror.variants[i].tag == a.assignments[i].tag);
                assert(b.mirror.variants[i].tag == b.assignments[i].tag);
            }
        },
        (Err(GenerationError::Malformed(a)), Err(GenerationError::Malformed(b))) => {
            lemma_first_duplicate_is_one(a, b, definition.variants@);
        },
        (Err(GenerationError::Malformed(a)), _) => {
            lemma_duplicate_is_not_unique(a, definition.variants@);
        },
        (_, Err(GenerationError::Malformed(b))) => {
            lemma_duplicate_is_not_unique(b, definition.variants@);
        },
        _ => {},
    }
}

/// A run of variants without a declared tag that follows a declared tag at
/// `start`: the variant at distance `m` fits exactly where `m` is no more
/// than the representation's largest value, whatever the baseline is worth.
pub proof fn law_run_fits_up_to_ceiling(
    representation: Representation,
    variants: Seq<Variant>,
    start: int,
    length: int,
)
    requires
        0 <= start,
        0 <= length,
        start + length < variants.len(),
        explicit_tags(variants)[start] is Some,
        forall|j: int|
            start < j <= start + length ==> (#[trigger] explicit_tags(variants)[j]) is None,
    ensures
        forall|m: int|
            0 <= m <= length ==> #[trigger] fits(representation, explicit_tags(variants), start + m)
                == (m <= representation.max_value()),
{
    let tags = explicit_tags(variants);
    assert forall|m: int| 0 <= m <= length implies #[trigger] fits(representation, tags, start + m)
        == (m <= representation.max_value()) by {
        lemma_anchor_holds(tags, start, m);
    }
}

/// The overflow boundary after a baseline that is worth zero: a run of
/// variants without a declared tag that is longer than the representation's
/// largest value less the baseline's has a variant that does not fit, so
/// assignment fails; a run that is not longer fits throughout. The engine
/// counts offsets and never reads a baseline, so for a baseline worth anything
/// else the boundary is the representation's largest value itself.
pub proof fn law_overflow_boundary(
    representation: Representation,
    variants: Seq<Variant>,
    env: Map<Seq<char>, int>,
    start: int,
    length: int,
    baseline: int,
)
    requires
        0 <= start,
        0 <= length,
        start + length < variants.len(),
        explicit_tags(variants)[start] is Some,
        expr_value(explicit_tags(variants)[start].unwrap(), env) == Some(baseline),
        baseline == 0,
        forall|j: int|
            start < j <= start + length ==> (#[trigger] explicit_tags(variants)[j]) is None,
    ensures
        length > representation.max_value() - baseline ==> !fits(
            representation,
            explicit_tags(variants),
            start + length,
        ),
        length <= representation.max_value() - baseline ==> forall|m: int|
            0 <= m <= length ==> #[trigger] fits(representation, explicit_tags(variants), start + m),
{
    law_run_fits_up_to_ceiling(representation, variants, start, length);
}

/// A value that no tag is worth is not found.
pub proof fn law_lookup_of_unassigned_value(tags: Seq<TagView>, value: int, env: Map<Seq<char>, int>)
    requires
        forall|i: int| 0 <= i < tags.len() ==> tag_value(#[trigger] tags[i], env) != Some(value),
    ensures
        lookup_outcome(tags, value, env) is None,
{
    lemma_first_hit_none(tag_hits(tags, value, env));
}

/// A union without variants has no assignment, a mirror without variants,
/// and a lookup that finds nothing, whatever the value.
pub proof fn law_empty_union(
    variants: Seq<Variant>,
    assignments: Seq<TagAssignment>,
    mirror: MirrorType,
    union_name: Seq<char>,
    visibility: Visibility,
    value: int,
    env: Map<Seq<char>, int>,
)
    requires
        variants.len() == 0,
        is_assignment_of(assignments, variants),
        is_mirror_of(mirror, union_name, visibility, assignments),
    ensures
        assignments.len() == 0,
        mirror.variants.len() == 0,
        lookup_outcome(mirror_tags(mirror.variants@), value, env) is None,
{
    lemma_first_hit_none(tag_hits(mirror_tags(mirror.variants@), value, env));
}

/// The projection is total on the values of a union whose variants' names
/// differ: a value of the variant at `i` projects to the mirror variant at
/// `i`, whatever its fields hold.
pub proof fn law_projection_is_total(
    variants: Seq<Variant>,
    arms: Seq<ProjectionArm>,
    instance: Instance,
    i: int,
)
    requires
        names_unique(variants),
        are_projection_arms_of(arms, variants),
        is_instance_of(instance, variants, i),
    ensures
        projection_outcome(arms, instance) == Some(i),
{
    let accepted = arm_hits(arms, instance);
    assert(accepted[i]);
    assert forall|j: int| 0 <= j < i implies !accepted[j] by {
        assert(variants[j].name@ != variants[i].name@);
    }
    lemma_first_hit_is(accepted, i);
}

/// Round trip: in a union whose variants' names differ, looking up what the
/// tag of the variant at `i` is worth finds the mirror variant that every
/// value of that variant projects to, provided that no earlier variant's tag
/// is worth the same.
pub proof fn law_lookup_of_tag_is_projection(
    variants: Seq<Variant>,
    assignments: Seq<TagAssignment>,
    mirror: MirrorType,
    union_name: Seq<char>,
    visibility: Visibility,
    arms: Seq<ProjectionArm>,
    instance: Instance,
    i: int,
    value: int,
    env: Map<Seq<char>, int>,
)
    requires
        names_unique(variants),
        is_assignment_of(assignments, variants),
        is_mirror_of(mirror, union_name, visibility, assignments),
        are_projection_arms_of(arms, variants),
        is_instance_of(instance, variants, i),
        tag_value(tag_at(explicit_tags(variants), i), env) == Some(value),
        forall|j: int|
            0 <= j < i ==> tag_value(#[trigger] tag_at(explicit_tags(variants), j), env) != Some(
                value,
            ),
    ensures
        lookup_outcome(mirror_tags(mirror.variants@), value, env) == Some(i),
        projection_outcome(arms, instance) == Some(i),
        lookup_outcome(mirror_tags(mirror.variants@), value, env) == projection_outcome(
            arms,
            instance,
        ),
{
    let tags = explicit_tags(variants);
    let found = tag_hits(mirror_tags(mirror.variants@), value, env);
    assert forall|j: int| 0 <= j <= i implies mirror_tags(mirror.variants@)[j] == tag_at(
        tags,
        j,
    ) by {
        assert(mirror.variants@[j].tag == assignments[j].tag);
    }
    assert(found[i]);
    assert forall|j: int| 0 <= j < i implies !found[j] by {
        assert(mirror_tags(mirror.variants@)[j] == tag_at(tags, j));
    }
    lemma_first_hit_is(found, i);
    law_projection_is_total(variants, arms, instance, i);
}

} // verus!
