//! The filter buttons above the list, and the filtered index of remote
//! entries that they induce.

use vstd::prelude::*;

use crate::status::ExtensionStatus;

verus! {

/// Which remote extensions the list shows.
#[derive(Debug, PartialEq, Eq, PartialOrd, Ord, Hash, Clone, Copy, Structural)]
pub enum ExtensionFilter {
    All,
    Installed,
    NotInstalled,
}

impl ExtensionFilter {
    /// Whether an entry with this status belongs in the filtered list.
    pub open spec fn admits(self, status: ExtensionStatus) -> bool {
        match self {
            ExtensionFilter::All => true,
            ExtensionFilter::Installed => status is Installed,
            ExtensionFilter::NotInstalled => status is NotInstalled,
        }
    }

    /// Dev extensions are built locally, so they are always "installed":
    /// they are listed except under the `NotInstalled` filter.
    pub fn include_dev_extensions(&self) -> (r: bool)
        ensures
            r == (*self is All || *self is Installed),
    {
        match self {
            ExtensionFilter::All | ExtensionFilter::Installed => true,
            ExtensionFilter::NotInstalled => false,
        }
    }
}

/// Whether `filter` admits an entry with `status`.
pub fn status_admitted(filter: ExtensionFilter, status: &ExtensionStatus) -> (r: bool)
    ensures
        r == filter.admits(*status),
{
    match filter {
        ExtensionFilter::All => true,
        ExtensionFilter::Installed => matches!(status, ExtensionStatus::Installed(_)),
        ExtensionFilter::NotInstalled => matches!(status, ExtensionStatus::NotInstalled),
    }
}

/// The indices, in ascending order, of the statuses that `filter` admits.
pub open spec fn filtered_indices(filter: ExtensionFilter, statuses: Seq<ExtensionStatus>) -> Seq<
    int,
>
    decreases statuses.len(),
{
    if statuses.len() == 0 {
        Seq::empty()
    } else {
        let rest = filtered_indices(filter, statuses.drop_last());
        if filter.admits(statuses.last()) {
            rest.push(statuses.len() - 1)
        } else {
            rest
        }
    }
}

/// Computes `filtered_indices`: one pass over the statuses, keeping the
/// index of each admitted entry.
pub fn compute_filtered_indices(filter: ExtensionFilter, statuses: &Vec<ExtensionStatus>) -> (r:
    Vec<usize>)
    ensures
        r@.map_values(|x: usize| x as int) == filtered_indices(filter, statuses@),
{
    let mut r: Vec<usize> = Vec::new();
    let n = statuses.len();
    for i in 0..n
        invariant
            n == statuses@.len(),
            r@.map_values(|x: usize| x as int) == filtered_indices(
                filter,
                statuses@.take(i as int),
            ),
    {
        let admitted = status_admitted(filter, &statuses[i]);
        proof {
            assert(statuses@.take(i + 1).drop_last() =~= statuses@.take(i as int));
            assert(statuses@.take(i + 1).last() == statuses@[i as int]);
        }
        if admitted {
            let ghost before = r@;
            r.push(i);
            proof {
                assert(r@.map_values(|x: usize| x as int) =~= before.map_values(
                    |x: usize| x as int,
                ).push(i as int));
            }
        }
    }
    proof {
        assert(statuses@.take(n as int) =~= statuses@);
    }
    r
}

/// The filtered index is sound and complete for the filter: every listed
/// index is in range, carries an admitted status, the indices are strictly
/// increasing, and every admitted index is listed.
pub proof fn lemma_filtered_indices_correct(
    filter: ExtensionFilter,
    statuses: Seq<ExtensionStatus>,
)
    ensures
        forall|j: int|
            0 <= j < filtered_indices(filter, statuses).len() ==> {
                let ix = #[trigger] filtered_indices(filter, statuses)[j];
                &&& 0 <= ix < statuses.len()
                &&& filter.admits(statuses[ix])
            },
        forall|j: int, k: int|
            0 <= j < k < filtered_indices(filter, statuses).len() ==> filtered_indices(
                filter,
                statuses,
            )[j] < filtered_indices(filter, statuses)[k],
        forall|ix: int|
            0 <= ix < statuses.len() && filter.admits(statuses[ix]) ==> filtered_indices(
                filter,
                statuses,
            ).contains(ix),
    decreases statuses.len(),
{
    if statuses.len() > 0 {
        lemma_filtered_indices_correct(filter, statuses.drop_last());
        let rest = filtered_indices(filter, statuses.drop_last());
        let whole = filtered_indices(filter, statuses);
        assert forall|ix: int|
            0 <= ix < statuses.len() && filter.admits(statuses[ix]) implies whole.contains(
            ix,
        ) by {
            if ix < statuses.len() - 1 {
                assert(statuses.drop_last()[ix] == statuses[ix]);
                assert(rest.contains(ix));
                let j = choose|j: int| 0 <= j < rest.len() && rest[j] == ix;
                assert(whole[j] == ix);
            } else {
                assert(whole.last() == ix);
            }
        }
        assert forall|j: int| 0 <= j < whole.len() implies {
            let ix = #[trigger] whole[j];
            &&& 0 <= ix < statuses.len()
            &&& filter.admits(statuses[ix])
        } by {
            if j < rest.len() {
                assert(whole[j] == rest[j]);
                assert(statuses.drop_last()[rest[j]] == statuses[rest[j]]);
            }
        }
    }
}

} // verus!
