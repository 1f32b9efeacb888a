//! Tag assignment: one tag expression for each variant, in declaration
//! order.
//!
//! A variant that declares a tag keeps it and becomes the baseline of the
//! variants after it. A variant that declares none gets the baseline plus its
//! distance from the variant that set it; before any declared tag the baseline
//! is zero and the first variant is at distance zero. The distance is the only
//! number the engine computes, and it must fit the representation.

use crate::expr::{ExprView, SymbolicExpr, TagExpr, TagView};
use crate::representation::Representation;
use crate::union_def::Variant;
use crate::value::TagValue;
use vstd::prelude::*;
use vstd::string::*;

verus! {

/// The tag assigned to one variant.
#[derive(Debug)]
pub struct TagAssignment {
    pub variant_name: String,
    pub tag: TagExpr,
}

/// Too many consecutive variants without a declared tag follow one baseline
/// for the chosen representation.
#[derive(Debug)]
pub struct OverflowError {
    /// The representation that the offset does not fit.
    pub representation: Representation,
    /// The position of the first variant whose offset does not fit.
    pub variant_index: usize,
    /// Its name.
    pub variant_name: String,
}

/// The tags that the variants declare, in order.
pub open spec fn explicit_tags(variants: Seq<Variant>) -> Seq<Option<ExprView>> {
    Seq::new(
        variants.len(),
        |i: int|
            match variants[i].explicit_tag {
                Some(e) => Some(e@),
                None => None,
            },
    )
}

/// The position of the last declared tag at or before `i`, or `-1` where
/// there is none.
pub open spec fn anchor(tags: Seq<Option<ExprView>>, i: int) -> int
    decreases i + 1,
{
    if i < 0 {
        -1
    } else if i < tags.len() && tags[i] is Some {
        i
    } else {
        anchor(tags, i - 1)
    }
}

/// The baseline in force at `i`: the last declared tag at or before `i`, or
/// zero where there is none.
pub open spec fn baseline_at(tags: Seq<Option<ExprView>>, i: int) -> ExprView {
    let a = anchor(tags, i);
    if a < 0 {
        ExprView::Literal(0)
    } else {
        tags[a].unwrap()
    }
}

/// The distance of `i` from the variant that set its baseline; from the first
/// variant where none did.
pub open spec fn offset_at(tags: Seq<Option<ExprView>>, i: int) -> int {
    let a = anchor(tags, i);
    if a < 0 {
        i
    } else {
        i - a
    }
}

/// The tag of the variant at `i`.
pub open spec fn tag_at(tags: Seq<Option<ExprView>>, i: int) -> TagView {
    if tags[i] is Some {
        TagView::Explicit(tags[i].unwrap())
    } else {
        TagView::Offset { baseline: baseline_at(tags, i), offset: offset_at(tags, i) as nat }
    }
}

/// Whether the offset of the variant at `i` fits the representation.
pub open spec fn fits(representation: Representation, tags: Seq<Option<ExprView>>, i: int) -> bool {
    offset_at(tags, i) <= representation.max_value()
}

/// Whether `list` holds the tags of `variants`, one for each, in order.
pub open spec fn is_assignment_of(list: Seq<TagAssignment>, variants: Seq<Variant>) -> bool {
    &&& list.len() == variants.len()
    &&& forall|i: int|
        0 <= i < variants.len() ==> {
            &&& (#[trigger] list[i]).variant_name@ == variants[i].name@
            &&& list[i].tag@ == tag_at(explicit_tags(variants), i)
        }
}

/// Whether `r` is what assigning tags to `variants` comes to: the tags of all
/// variants where every offset fits the representation, and otherwise the
/// first variant whose offset does not fit.
pub open spec fn is_assignment_outcome(
    representation: Representation,
    variants: Seq<Variant>,
    r: Result<Vec<TagAssignment>, OverflowError>,
) -> bool {
    match r {
        Ok(list) => {
            &&& is_assignment_of(list@, variants)
            &&& forall|i: int|
                0 <= i < variants.len() ==> fits(representation, explicit_tags(variants), i)
        },
        Err(e) => {
            &&& e.representation == representation
            &&& e.variant_index < variants.len()
            &&& e.variant_name@ == variants[e.variant_index as int].name@
            &&& !fits(representation, explicit_tags(variants), e.variant_index as int)
            &&& forall|i: int|
                0 <= i < e.variant_index ==> fits(representation, explicit_tags(variants), i)
        },
    }
}

/// The message of an overflow.
pub open spec fn overflow_text(
    union_name: Seq<char>,
    variant_name: Seq<char>,
    representation: Representation,
) -> Seq<char> {
    "Too many consecutive implicit variants following a given baseline for the chosen representation `"@
        + representation.name_text() + "`: `"@ + union_name + "::"@ + variant_name
        + "` does not fit"@
}

impl OverflowError {
    /// The text that reports the error for the union called `union_name`: it
    /// names the representation and the variant at which the offset
    /// overflows.
    pub fn message(&self, union_name: &str) -> (r: String)
        ensures
            r@ == overflow_text(union_name@, self.variant_name@, self.representation),
    {
        String::from_str(
            "Too many consecutive implicit variants following a given baseline for the chosen representation `",
        ).concat(self.representation.name()).concat("`: `").concat(union_name).concat("::").concat(
            self.variant_name.as_str(),
        ).concat("` does not fit")
    }
}

/// The sum of two offsets, or `None` where it does not fit: this is
/// `num_traits::CheckedAdd::checked_add` on `u128`, which hands the call on
/// to the integer's own checked addition.
#[verifier::external_body]
fn checked_sum(a: u128, b: u128) -> (r: Option<u128>)
    ensures
        r == if a + b <= u128::MAX {
            Some((a + b) as u128)
        } else {
            None::<u128>
        },
{
    num_traits::CheckedAdd::checked_add(&a, &b)
}

/// The offset that follows `offset` in a counter of the given
/// representation, or `None` where the counter cannot go further.
pub fn next_offset(representation: Representation, offset: u128) -> (r: Option<u128>)
    ensures
        r == if offset < representation.max_value() {
            Some((offset + 1) as u128)
        } else {
            None::<u128>
        },
{
    match checked_sum(offset, 1) {
        Some(next) => if next <= representation.ceiling() {
            Some(next)
        } else {
            None
        },
        None => None,
    }
}

/// Assigns a tag to every variant, in declaration order. Fails at the first
/// variant whose offset from its baseline does not fit the representation,
/// and only there.
pub fn assign_tags(representation: Representation, variants: &Vec<Variant>) -> (r: Result<
    Vec<TagAssignment>,
    OverflowError,
>)
    ensures
        is_assignment_outcome(representation, variants@, r),
{
    let n = variants.len();
    let ghost tags = explicit_tags(variants@);
    let mut list: Vec<TagAssignment> = Vec::new();
    let mut baseline = SymbolicExpr::Literal(TagValue { negative: false, magnitude: 0 });
    let mut offset: u128 = 0;
    let mut i: usize = 0;
    while i < n
        invariant
            i <= n,
            n == variants.len(),
            tags == explicit_tags(variants@),
            list.len() == i,
            baseline@ == baseline_at(tags, i - 1),
            i > 0 ==> offset == offset_at(tags, i - 1),
            forall|j: int| 0 <= j < i ==> fits(representation, tags, j),
            forall|j: int|
                0 <= j < i ==> {
                    &&& (#[trigger] list[j]).variant_name@ == variants[j].name@
                    &&& list[j].tag@ == tag_at(tags, j)
                },
        decreases n - i,
    {
        let variant = &variants[i];
        let tag = match &variant.explicit_tag {
            Some(declared) => {
                baseline = declared.clone();
                offset = 0;
                TagExpr::Explicit(declared.clone())
            },
            None => {
                if i == 0 {
                    offset = 0;
                } else {
                    match next_offset(representation, offset) {
                        Some(next) => {
                            offset = next;
                        },
                        None => {
                            return Err(
                                OverflowError {
                                    representation,
                                    variant_index: i,
                                    variant_name: variant.name.clone(),
                                },
                            );
                        },
                    }
                }
                TagExpr::Offset { baseline: baseline.clone(), offset }
            },
        };
        list.push(TagAssignment { variant_name: variant.name.clone(), tag });
        i = i + 1;
    }
    Ok(list)
}

} // verus!
