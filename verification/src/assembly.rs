//! The assembly stage: manifest generation, integrity accounting, and the
//! decision whether to invoke the external encoder.
//!
//! After the workers have joined, the application checks which frame files
//! exist on disk and hands the presence flags — one per index `0..=total` —
//! to `plan_assembly`.  The plan carries the ordered manifest lines, the
//! found/expected accounting behind the integrity ratio, and whether the
//! encoder is to be invoked (only when no output video exists yet).  Writing
//! the manifest file and running the encoder are the application's part.

use crate::naming::manifest_line;
use crate::naming::manifest_line_rep;
use vstd::prelude::*;

verus! {

/// Everything one assembly run does, decided from the presence flags and the
/// prior existence of the output video.
pub struct AssemblyPlan {
    /// One line per present frame, in ascending index order.
    pub manifest_lines: Vec<String>,
    /// How many expected frames were found on disk.
    pub found_count: usize,
    /// How many frames were expected: one per index `0..=total`.
    pub expected_count: usize,
    /// Whether the external encoder is to be invoked.
    pub invoke_encoder: bool,
}

/// Manifest of the first `n` indices: a line for each present one, ascending.
pub open spec fn manifest_upto(present: Seq<bool>, n: int) -> Seq<Seq<char>>
    decreases n,
{
    if n <= 0 {
        Seq::empty()
    } else {
        manifest_upto(present, n - 1) + if present[n - 1] {
            seq![manifest_line_rep((n - 1) as nat)]
        } else {
            Seq::empty()
        }
    }
}

/// The full manifest the presence flags give rise to.
pub open spec fn manifest_rep(present: Seq<bool>) -> Seq<Seq<char>> {
    manifest_upto(present, present.len() as int)
}

/// How many of the first `n` indices are present.
pub open spec fn count_upto(present: Seq<bool>, n: int) -> int
    decreases n,
{
    if n <= 0 {
        0
    } else {
        count_upto(present, n - 1) + if present[n - 1] {
            1int
        } else {
            0
        }
    }
}

/// How many indices are present in all.
pub open spec fn count_present(present: Seq<bool>) -> int {
    count_upto(present, present.len() as int)
}

/// The encoder runs exactly when no output video exists yet.
pub open spec fn spec_invoke_encoder(output_exists: bool) -> bool {
    !output_exists
}

/// Everything the assembly run is determined by, at the spec level: the
/// manifest, the found count, and the encoder decision.
pub open spec fn assembly_rep(present: Seq<bool>, output_exists: bool) -> (
    Seq<Seq<char>>,
    int,
    bool,
) {
    (manifest_rep(present), count_present(present), spec_invoke_encoder(output_exists))
}

/// Builds the plan of one assembly run: scans the presence flags in
/// ascending index order, emits one manifest line per present frame, counts
/// the found frames against the expected total, and decides the encoder
/// invocation.  Missing frames are omitted, never zero-filled, and never
/// fail the run.
#[verifier::loop_isolation(false)]
pub fn plan_assembly(present: &Vec<bool>, output_exists: bool) -> (r: AssemblyPlan)
    ensures
        r.manifest_lines@.map_values(|l: String| l@) == assembly_rep(present@, output_exists).0,
        r.found_count == assembly_rep(present@, output_exists).1,
        r.expected_count == present@.len(),
        r.invoke_encoder == assembly_rep(present@, output_exists).2,
{
    let mut lines: Vec<String> = Vec::new();
    let mut found: usize = 0;
    let mut i: usize = 0;
    while i < present.len()
        invariant
            i <= present@.len(),
            lines@.map_values(|l: String| l@) == manifest_upto(present@, i as int),
            found == count_upto(present@, i as int),
            found <= i,
        decreases present@.len() - i,
    {
        if present[i] {
            let line = manifest_line(i as u64);
            lines.push(line);
            found = found + 1;
        }
        proof {
            assert(lines@.map_values(|l: String| l@) =~= manifest_upto(present@, i + 1));
        }
        i = i + 1;
    }
    AssemblyPlan {
        manifest_lines: lines,
        found_count: found,
        expected_count: present.len(),
        invoke_encoder: !output_exists,
    }
}

/// The manifest holds exactly one line per present frame.
pub proof fn lemma_manifest_len(present: Seq<bool>)
    ensures
        manifest_rep(present).len() == count_present(present),
{
    lemma_manifest_upto_len(present, present.len() as int);
}

proof fn lemma_manifest_upto_len(present: Seq<bool>, n: int)
    ensures
        manifest_upto(present, n).len() == count_upto(present, n),
    decreases n,
{
    if n > 0 {
        lemma_manifest_upto_len(present, n - 1);
    }
}

/// The indices of the present frames among the first `n`, ascending.
pub open spec fn present_indices_upto(present: Seq<bool>, n: int) -> Seq<int>
    decreases n,
{
    if n <= 0 {
        Seq::empty()
    } else {
        present_indices_upto(present, n - 1) + if present[n - 1] {
            seq![n - 1]
        } else {
            Seq::empty()
        }
    }
}

/// The indices of all present frames, ascending.
pub open spec fn present_indices(present: Seq<bool>) -> Seq<int> {
    present_indices_upto(present, present.len() as int)
}

proof fn lemma_manifest_upto_ascending(present: Seq<bool>, n: int)
    requires
        n <= present.len(),
    ensures
        manifest_upto(present, n).len() == present_indices_upto(present, n).len(),
        forall|k: int|
            0 <= k < present_indices_upto(present, n).len() ==> manifest_upto(present, n)[k]
                == manifest_line_rep(#[trigger] present_indices_upto(present, n)[k] as nat),
        forall|k: int|
            0 <= k < present_indices_upto(present, n).len() ==> 0 <= #[trigger] present_indices_upto(
                present,
                n,
            )[k] < n && present[present_indices_upto(present, n)[k]],
        forall|k1: int, k2: int|
            0 <= k1 < k2 < present_indices_upto(present, n).len()
                ==> #[trigger] present_indices_upto(present, n)[k1]
                < #[trigger] present_indices_upto(present, n)[k2],
    decreases n,
{
    if n > 0 {
        lemma_manifest_upto_ascending(present, n - 1);
    }
}

/// The manifest names exactly the present frames and nothing else, in
/// strictly ascending index order: its `k`-th line is the line of the `k`-th
/// present index, every such index is present, and missing indices are
/// omitted rather than zero-filled.
pub proof fn lemma_manifest_is_ascending(present: Seq<bool>)
    ensures
        manifest_rep(present).len() == present_indices(present).len(),
        forall|k: int|
            0 <= k < present_indices(present).len() ==> manifest_rep(present)[k]
                == manifest_line_rep(#[trigger] present_indices(present)[k] as nat),
        forall|k: int|
            0 <= k < present_indices(present).len() ==> 0 <= #[trigger] present_indices(present)[k]
                < present.len() && present[present_indices(present)[k]],
        forall|k1: int, k2: int|
            0 <= k1 < k2 < present_indices(present).len() ==> #[trigger] present_indices(present)[k1]
                < #[trigger] present_indices(present)[k2],
{
    lemma_manifest_upto_ascending(present, present.len() as int);
}

/// Running assembly again once the output video exists performs no second
/// encoder invocation, while the manifest and the accounting — functions of
/// the presence flags alone — are rebuilt identically to the first run.
pub proof fn lemma_assembly_idempotent(present: Seq<bool>, first_exists: bool)
    ensures
        assembly_rep(present, true).0 == assembly_rep(present, first_exists).0,
        assembly_rep(present, true).1 == assembly_rep(present, first_exists).1,
        !assembly_rep(present, true).2,
{
}

/// With a single expected index the accounting is exact: one frame found
/// when it is present, none when it is not, out of one expected.
pub proof fn lemma_single_frame_accounting(present: Seq<bool>)
    requires
        present.len() == 1,
    ensures
        count_present(present) == if present[0] {
            1int
        } else {
            0
        },
        manifest_rep(present).len() == count_present(present),
{
    lemma_manifest_len(present);
    assert(count_upto(present, 0) == 0);
    assert(count_present(present) == count_upto(present, 0) + if present[0] {
        1int
    } else {
        0
    });
}

} // verus!
