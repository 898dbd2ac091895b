//! Build status of a project and the facts observed about its ephemeral
//! directories.
use vstd::prelude::*;

verus! {

/// Whether a project holds regenerable build output, and how much.
#[derive(Debug, Clone, Copy, PartialEq, Eq, Structural)]
pub enum BuildStatus {
    Clean,
    Built { freeable_bytes: u64 },
}

/// What the caller found on disk for one ephemeral directory of a project.
#[derive(Debug, Clone, Copy, PartialEq, Eq, Structural)]
pub struct DirObservation {
    /// The path exists and is a directory.
    pub is_dir: bool,
    /// The path is matched by the project's ignore rules.
    pub gitignored: bool,
    /// Recursive on-disk size of the directory, in bytes.
    pub size: u64,
}

/// The size failed to fit into the counter of freeable bytes.
#[derive(Debug, Clone, Copy, PartialEq, Eq, Structural)]
pub enum StatusError {
    SizeOverflow,
}

/// Sum of a sequence of sizes, as a mathematical integer.
pub open spec fn total(sizes: Seq<u64>) -> int
    decreases sizes.len(),
{
    if sizes.len() == 0 {
        0
    } else {
        total(sizes.drop_last()) + sizes.last()
    }
}

/// The status that corresponds to a number of reclaimable bytes.
pub open spec fn status_of(bytes: int) -> BuildStatus {
    if bytes == 0 {
        BuildStatus::Clean
    } else {
        BuildStatus::Built { freeable_bytes: bytes as u64 }
    }
}

/// The status of a project whose counted ephemeral directories have the given
/// sizes, or an error where their sum exceeds `u64::MAX`.
pub open spec fn status_of_sizes(sizes: Seq<u64>) -> Result<BuildStatus, StatusError> {
    if total(sizes) > u64::MAX {
        Err(StatusError::SizeOverflow)
    } else {
        Ok(status_of(total(sizes)))
    }
}

proof fn lemma_total_monotone(sizes: Seq<u64>, i: int)
    requires
        0 <= i <= sizes.len(),
    ensures
        total(sizes.take(i)) <= total(sizes),
    decreases sizes.len(),
{
    if i < sizes.len() {
        assert(sizes.drop_last().take(i) == sizes.take(i));
        lemma_total_monotone(sizes.drop_last(), i);
    } else {
        assert(sizes.take(i) == sizes);
    }
}

/// Classifies a project from the sizes of its counted ephemeral directories:
/// `Clean` when they sum to zero, otherwise `Built` with that exact sum.
pub fn status_from_sizes(sizes: &Vec<u64>) -> (r: Result<BuildStatus, StatusError>)
    ensures
        r == status_of_sizes(sizes@),
{
    let mut sum: u64 = 0;
    let mut i: usize = 0;
    while i < sizes.len()
        invariant
            0 <= i <= sizes.len(),
            sum == total(sizes@.take(i as int)),
        decreases sizes.len() - i,
    {
        assert(sizes@.take(i as int + 1).drop_last() == sizes@.take(i as int));
        proof {
            lemma_total_monotone(sizes@, i as int + 1);
        }
        match sum.checked_add(sizes[i]) {
            Some(s) => {
                sum = s;
            },
            None => {
                return Err(StatusError::SizeOverflow);
            },
        }
        i = i + 1;
    }
    assert(sizes@.take(i as int) == sizes@);
    if sum == 0 {
        Ok(BuildStatus::Clean)
    } else {
        Ok(BuildStatus::Built { freeable_bytes: sum })
    }
}

} // verus!

verus! {

/// The sizes that one observed directory adds to a project's status: its size
/// when it is a directory, and, for a `gated` directory, only when it is
/// also matched by the ignore rules.
pub open spec fn counted(o: DirObservation, gated: bool) -> Seq<u64> {
    if o.is_dir && (!gated || o.gitignored) {
        seq![o.size]
    } else {
        Seq::empty()
    }
}

/// Sizes never sum below zero, and sum to zero exactly when each is zero.
pub proof fn lemma_total_zero_iff_all_zero(sizes: Seq<u64>)
    ensures
        total(sizes) >= 0,
        total(sizes) == 0 <==> forall|i: int| 0 <= i < sizes.len() ==> sizes[i] == 0,
    decreases sizes.len(),
{
    if sizes.len() > 0 {
        lemma_total_zero_iff_all_zero(sizes.drop_last());
        if total(sizes) == 0 {
            assert forall|i: int| 0 <= i < sizes.len() implies sizes[i] == 0 by {
                if i < sizes.len() - 1 {
                    assert(sizes.drop_last()[i] == sizes[i]);
                }
            }
        } else {
            assert(forall|i: int| 0 <= i < sizes.drop_last().len() ==> sizes.drop_last()[i] == sizes[i]);
        }
    }
}

/// A project is reported `Clean` exactly when each of its counted
/// directories is empty; otherwise it is `Built` with the exact sum of their
/// sizes (as long as that sum fits into `u64`).
pub proof fn lemma_clean_iff_empty(sizes: Seq<u64>)
    ensures
        status_of_sizes(sizes) == Ok::<BuildStatus, StatusError>(BuildStatus::Clean) <==> forall|i: int|
            0 <= i < sizes.len() ==> sizes[i] == 0,
        total(sizes) <= u64::MAX && total(sizes) != 0 ==> status_of_sizes(sizes) == Ok::<
            BuildStatus,
            StatusError,
        >(BuildStatus::Built { freeable_bytes: total(sizes) as u64 }),
{
    lemma_total_zero_iff_all_zero(sizes);
}

} // verus!
