//! The whole generation for one union: the representation is resolved, the
//! definition is checked, the tags are assigned, and the mirror type and the
//! projection are built. Any failure leaves nothing behind.

use crate::assign::{
    assign_tags, is_assignment_outcome, overflow_text, OverflowError, TagAssignment,
};
use crate::mirror::{
    are_projection_arms_of, is_mirror_of, mirror_type, projection_arms, MirrorType, ProjectionArm,
};
use crate::representation::{
    configuration_text, named_representation, portability_text, ConfigurationError,
    Representation,
};
use crate::union_def::{duplicate_text, is_first_duplicate, DuplicateVariant, UnionDefinition};
use vstd::prelude::*;

verus! {

/// What is generated for one union.
#[derive(Debug)]
pub struct Generated {
    /// The representation of the union and of its mirror.
    pub representation: Representation,
    /// Advisory text for a platform-width representation.
    pub warning: Option<String>,
    /// The tag of every variant, in declaration order.
    pub assignments: Vec<TagAssignment>,
    /// The mirror type, whose variants also are the cases of the lookup.
    pub mirror: MirrorType,
    /// The cases of the projection.
    pub projection: Vec<ProjectionArm>,
}

/// Why nothing was generated.
#[derive(Debug)]
pub enum GenerationError {
    /// The representation is not one of the integer kinds.
    Configuration(ConfigurationError),
    /// The definition is malformed: a variant's name occurs twice.
    Malformed(DuplicateVariant),
    /// A run of variants without a declared tag is too long for the
    /// representation.
    Overflow(OverflowError),
}

/// Whether `r` is what generation comes to for the representation named
/// `token` and the union `definition`.
pub open spec fn is_generation_outcome(
    token: Seq<char>,
    definition: UnionDefinition,
    r: Result<Generated, GenerationError>,
) -> bool {
    match r {
        Ok(g) => {
            &&& named_representation(token) == Some(g.representation)
            &&& match g.warning {
                Some(text) => g.representation.is_platform_width() && text@ == portability_text(
                    token,
                ),
                None => !g.representation.is_platform_width(),
            }
            &&& definition.well_formed()
            &&& is_assignment_outcome(g.representation, definition.variants@, Ok(g.assignments))
            &&& is_mirror_of(g.mirror, definition.name@, definition.visibility, g.assignments@)
            &&& are_projection_arms_of(g.projection@, definition.variants@)
        },
        Err(GenerationError::Configuration(e)) => {
            &&& named_representation(token) is None
            &&& e.token@ == token
            &&& e.union_name@ == definition.name@
        },
        Err(GenerationError::Malformed(e)) => {
            &&& named_representation(token) is Some
            &&& is_first_duplicate(e, definition.variants@)
        },
        Err(GenerationError::Overflow(e)) => {
            &&& named_representation(token) is Some
            &&& definition.well_formed()
            &&& is_assignment_outcome(
                named_representation(token).unwrap(),
                definition.variants@,
                Err(e),
            )
        },
    }
}

impl GenerationError {
    /// The text that reports the error for the union called `union_name`.
    pub fn message(&self, union_name: &str) -> (r: String)
        ensures
            r@ == match *self {
                GenerationError::Configuration(e) => configuration_text(e.token@, e.union_name@),
                GenerationError::Malformed(e) => duplicate_text(union_name@, e.variant_name@),
                GenerationError::Overflow(e) => overflow_text(
                    union_name@,
                    e.variant_name@,
                    e.representation,
                ),
            },
    {
        match self {
            GenerationError::Configuration(e) => e.message(),
            GenerationError::Malformed(e) => e.message(union_name),
            GenerationError::Overflow(e) => e.message(union_name),
        }
    }
}

/// Generates everything for one union, or nothing: a token that names no
/// representation is a configuration error; otherwise a repeated variant
/// name makes the definition malformed; otherwise an offset that does not
/// fit the representation is an overflow; otherwise the result holds the
/// assignments, the mirror type and the projection.
pub fn generate(token: &str, definition: &UnionDefinition) -> (r: Result<
    Generated,
    GenerationError,
>)
    ensures
        is_generation_outcome(token@, *definition, r),
{
    let resolved = match Representation::resolve(token, definition.name.as_str()) {
        Ok(resolved) => resolved,
        Err(e) => {
            return Err(GenerationError::Configuration(e));
        },
    };
    match definition.first_repeated_name() {
        Some(j) => {
            return Err(
                GenerationError::Malformed(
                    DuplicateVariant {
                        variant_index: j,
                        variant_name: definition.variants[j].name.clone(),
                    },
                ),
            );
        },
        None => {},
    }
    let assignments = match assign_tags(resolved.representation, &definition.variants) {
        Ok(assignments) => assignments,
        Err(e) => {
            return Err(GenerationError::Overflow(e));
        },
    };
    let mirror = mirror_type(definition.name.as_str(), &definition.visibility, &assignments);
    let projection = projection_arms(&definition.variants);
    Ok(
        Generated {
            representation: resolved.representation,
            warning: resolved.warning,
            assignments,
            mirror,
            projection,
        },
    )
}

} // verus!
