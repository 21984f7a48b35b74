//! Refspecs and lists of them.

use gix_refspec::RefSpec;
use vstd::prelude::*;

verus! {

/// A refspec, as `gix_refspec` has it.
#[verifier::external_type_specification]
#[verifier::external_body]
pub struct ExRefSpec(gix_refspec::RefSpec);

/// What a refspec instructs to do.
pub enum Instruction {
    /// Fetch `src`, without updating a local reference.
    FetchOnly { src: Seq<u8> },
    /// Fetch `src` and set `dst` to it.
    FetchAndUpdate { src: Seq<u8>, dst: Seq<u8>, allow_non_fast_forward: bool },
    /// Do not fetch what matches `src`.
    FetchExclude { src: Seq<u8> },
    /// Push each branch that exists on both sides.
    PushAllMatchingBranches { allow_non_fast_forward: bool },
    /// Delete `ref_or_pattern` on the remote.
    PushDelete { ref_or_pattern: Seq<u8> },
    /// Push `src` to `dst`.
    PushMatching { src: Seq<u8>, dst: Seq<u8>, allow_non_fast_forward: bool },
    /// Do not push what matches `src`.
    PushExclude { src: Seq<u8> },
}

/// What `gix_refspec::RefSpecRef::instruction()` returns for `spec`.
pub uninterp spec fn instruction_of(spec: gix_refspec::RefSpec) -> Instruction;

/// Compare two refspecs with `gix_refspec::RefSpec`'s `==`, which compares the instructions of both
/// and nothing else.
#[verifier::external_body]
fn same_instruction(a: &RefSpec, b: &RefSpec) -> (same: bool)
    ensures
        same == (instruction_of(*a) == instruction_of(*b)),
{
    a == b
}

/// Whether `specs` has a refspec with the same instruction as `spec`.
pub open spec fn has_instruction_of(specs: Seq<RefSpec>, spec: RefSpec) -> bool {
    exists|i: int|
        0 <= i < specs.len() && #[trigger] instruction_of(specs[i]) == instruction_of(spec)
}

/// Return `true` if `specs` has a refspec that equals `spec`.
pub fn contains(specs: &Vec<RefSpec>, spec: &RefSpec) -> (found: bool)
    ensures
        found == has_instruction_of(specs@, *spec),
        found == exists|i: int|
            0 <= i < specs@.len() && #[trigger] instruction_of(specs@[i]) == instruction_of(*spec),
{
    let mut i: usize = 0;
    while i < specs.len()
        invariant
            i <= specs.len(),
            forall|j: int|
                0 <= j < i ==> #[trigger] instruction_of(specs@[j]) != instruction_of(*spec),
        decreases specs.len() - i,
    {
        if same_instruction(&specs[i], spec) {
            assert(instruction_of(specs@[i as int]) == instruction_of(*spec));
            return true;
        }
        i += 1;
    }
    false
}

/// `specs` followed by `tag_spec`, unless there is none or `is_present` says that `specs` has it.
pub open spec fn with_tag_spec_unless(
    specs: Seq<RefSpec>,
    tag_spec: Option<RefSpec>,
    is_present: bool,
) -> Seq<RefSpec> {
    match tag_spec {
        Some(spec) if !is_present => specs.push(spec),
        _ => specs,
    }
}

/// `specs` followed by `tag_spec`, unless there is none or `specs` has an equal one.
pub open spec fn with_tag_spec(specs: Seq<RefSpec>, tag_spec: Option<RefSpec>) -> Seq<RefSpec> {
    with_tag_spec_unless(
        specs,
        tag_spec,
        tag_spec is Some && has_instruction_of(specs, tag_spec->0),
    )
}

/// Append `tag_spec` to `specs` if there is one, unless `is_present`.
pub fn push_tag_spec_unless(
    specs: &mut Vec<RefSpec>,
    tag_spec: Option<RefSpec>,
    is_present: bool,
)
    ensures
        final(specs)@ == with_tag_spec_unless(old(specs)@, tag_spec, is_present),
        tag_spec is Some && !is_present ==> final(specs)@ == old(specs)@.push(tag_spec->0),
        tag_spec is None || is_present ==> final(specs)@ == old(specs)@,
{
    if let Some(spec) = tag_spec {
        if !is_present {
            specs.push(spec);
        }
    }
}

/// Append `tag_spec` to `specs` if there is one, unless `specs` already has an equal one.
pub fn push_tag_spec(specs: &mut Vec<RefSpec>, tag_spec: Option<RefSpec>)
    ensures
        final(specs)@ == with_tag_spec(old(specs)@, tag_spec),
        tag_spec is None ==> final(specs)@ == old(specs)@,
        tag_spec matches Some(spec) ==> {
            let is_new = forall|i: int|
                0 <= i < old(specs)@.len() ==> #[trigger] instruction_of(old(specs)@[i])
                    != instruction_of(spec);
            final(specs)@ == if is_new {
                old(specs)@.push(spec)
            } else {
                old(specs)@
            }
        },
{
    let is_present = match &tag_spec {
        Some(spec) => contains(specs, spec),
        None => false,
    };
    push_tag_spec_unless(specs, tag_spec, is_present);
}

/// Once the refspec for tags was added to a list, the list has it, it still starts with all that
/// it had before, and adding the same refspec again changes nothing.
pub proof fn law_tag_spec_is_added_once(specs: Seq<RefSpec>, tag_spec: RefSpec)
    ensures
        has_instruction_of(with_tag_spec(specs, Some(tag_spec)), tag_spec),
        specs.is_prefix_of(with_tag_spec(specs, Some(tag_spec))),
        with_tag_spec(with_tag_spec(specs, Some(tag_spec)), Some(tag_spec)) == with_tag_spec(
            specs,
            Some(tag_spec),
        ),
{
    if !has_instruction_of(specs, tag_spec) {
        let added = specs.push(tag_spec);
        assert(instruction_of(added[specs.len() as int]) == instruction_of(tag_spec));
    }
}

/// The refspec for tags is appended exactly if no refspec in the list has its instruction. Nothing else is ever added, and
/// without a refspec for tags nothing is.
pub proof fn law_tag_spec_is_added_if_missing(specs: Seq<RefSpec>, tag_spec: RefSpec)
    ensures
        with_tag_spec(specs, None) == specs,
        forall|i: int|
            0 <= i < specs.len() && #[trigger] instruction_of(specs[i]) == instruction_of(tag_spec)
                ==> with_tag_spec(specs, Some(tag_spec)) == specs,
        (forall|i: int|
            0 <= i < specs.len() ==> #[trigger] instruction_of(specs[i]) != instruction_of(
                tag_spec,
            )) ==> with_tag_spec(specs, Some(tag_spec)) == specs.push(tag_spec),
{
}

} // verus!
