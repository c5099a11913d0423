//! Staleness detection: decide from modification timestamps whether a stage's
//! output artifact must be regenerated from its inputs.

use vstd::prelude::*;

verus! {

/// What the filesystem reports about a stage's output artifact: the file is
/// absent, its modification time is known, or it exists but its metadata
/// could not be obtained.
#[derive(Clone, Copy, PartialEq, Eq, Structural, Debug)]
pub enum Stamp {
    Absent,
    Modified(u64),
    Unknown,
}

/// Whether every input's modification time was obtained. An input is given
/// as its modification time, or as `None` when its metadata could not be
/// obtained.
pub open spec fn all_metadata_available(inputs: Seq<Option<u64>>) -> bool {
    forall|i: int| 0 <= i < inputs.len() ==> (#[trigger] inputs[i]) is Some
}

/// Whether one input timestamp is strictly newer than the output's; a tie
/// does not count.
pub open spec fn input_newer_than(input: Option<u64>, out_mtime: u64) -> bool {
    input matches Some(t) && t > out_mtime
}

pub open spec fn some_input_newer(inputs: Seq<Option<u64>>, out_mtime: u64) -> bool {
    exists|i: int| 0 <= i < inputs.len() && input_newer_than(#[trigger] inputs[i], out_mtime)
}

/// The staleness rule: a missing output must be regenerated; an output with a
/// known timestamp must be regenerated exactly when every input timestamp is
/// available and at least one is strictly newer; when any metadata is
/// unavailable, nothing is regenerated.
pub open spec fn spec_regeneration_required(output: Stamp, inputs: Seq<Option<u64>>) -> bool {
    match output {
        Stamp::Absent => true,
        Stamp::Modified(out_mtime) => all_metadata_available(inputs) && some_input_newer(
            inputs,
            out_mtime,
        ),
        Stamp::Unknown => false,
    }
}

/// Decide whether the output artifact must be regenerated from its inputs.
pub fn regeneration_required(output: &Stamp, inputs: &Vec<Option<u64>>) -> (required: bool)
    ensures
        required == spec_regeneration_required(*output, inputs@),
{
    match output {
        Stamp::Absent => true,
        Stamp::Unknown => false,
        Stamp::Modified(out_mtime) => {
            let mut i: usize = 0;
            let mut all_available = true;
            let mut any_newer = false;
            while i < inputs.len()
                invariant
                    0 <= i <= inputs@.len(),
                    all_available == (forall|j: int|
                        0 <= j < i ==> (#[trigger] inputs@[j]) is Some),
                    any_newer == (exists|j: int|
                        0 <= j < i && input_newer_than(#[trigger] inputs@[j], *out_mtime)),
                decreases inputs@.len() - i,
            {
                match inputs[i] {
                    Some(t) => {
                        if t > *out_mtime {
                            any_newer = true;
                        }
                    },
                    None => {
                        all_available = false;
                    },
                }
                i = i + 1;
            }
            all_available && any_newer
        },
    }
}

/// Staleness law: a missing output artifact always requires regeneration,
/// whatever the inputs report.
pub proof fn lemma_missing_output_requires_regeneration(inputs: Seq<Option<u64>>)
    ensures
        spec_regeneration_required(Stamp::Absent, inputs),
{
}

/// Staleness law: when every input timestamp is available and none is
/// strictly newer than the output's, no regeneration is required.
pub proof fn lemma_fresh_output_requires_nothing(out_mtime: u64, inputs: Seq<Option<u64>>)
    requires
        forall|i: int|
            0 <= i < inputs.len() ==> ((#[trigger] inputs[i]) matches Some(t) && t <= out_mtime),
    ensures
        !spec_regeneration_required(Stamp::Modified(out_mtime), inputs),
{
    assert(forall|i: int|
        0 <= i < inputs.len() ==> !input_newer_than(#[trigger] inputs[i], out_mtime));
}

/// Staleness law: when every input timestamp is available and at least one is
/// strictly newer than the output's, regeneration is required.
pub proof fn lemma_newer_input_requires_regeneration(
    out_mtime: u64,
    inputs: Seq<Option<u64>>,
    witness: int,
)
    requires
        all_metadata_available(inputs),
        0 <= witness < inputs.len(),
        inputs[witness] matches Some(t) && t > out_mtime,
    ensures
        spec_regeneration_required(Stamp::Modified(out_mtime), inputs),
{
    assert(input_newer_than(inputs[witness], out_mtime));
}

/// Staleness law: unavailable metadata never triggers regeneration of an
/// existing output — neither the output's own metadata failing, nor that of
/// any input.
pub proof fn lemma_unavailable_metadata_requires_nothing(
    out_mtime: u64,
    inputs: Seq<Option<u64>>,
    missing: int,
)
    requires
        0 <= missing < inputs.len(),
        inputs[missing] is None,
    ensures
        !spec_regeneration_required(Stamp::Modified(out_mtime), inputs),
        !spec_regeneration_required(Stamp::Unknown, inputs),
{
    assert(!all_metadata_available(inputs));
}

} // verus!
