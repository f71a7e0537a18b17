//! Retention: which files of a directory have outlived the limit.
use crate::error::RollingError;
use crate::rolling::naming::RollingFileNameProvider;
use vstd::prelude::*;
use vstd::string::StringExecFns;

verus! {

/// One entry of the directory, as the caller found it.
#[derive(Debug)]
pub struct DirectoryEntry {
    /// The name of the entry within the directory.
    pub file_name: String,
    /// Whether the entry is a regular file.
    pub is_file: bool,
    /// When the entry was created, in nanoseconds since the Unix epoch;
    /// `None` where the file system could not tell.
    pub created: Option<i128>,
}

impl DirectoryEntry {
    /// An entry of a directory listing.
    pub fn new(file_name: &str, is_file: bool, created: Option<i128>) -> (entry: Self)
        ensures
            entry.file_name@ == file_name@,
            entry.is_file == is_file,
            entry.created == created,
    {
        DirectoryEntry { file_name: String::from_str(file_name), is_file, created }
    }
}

/// An entry belongs to the rotation where it is a regular file whose name
/// the naming policy accepts.
pub open spec fn belongs<T: RollingFileNameProvider>(provider: &T, entry: DirectoryEntry) -> bool {
    entry.is_file && provider.judged(entry.file_name@) == Ok::<bool, RollingError>(true)
}

/// Why the entry at place `i` stops the pruning, if it does: the naming
/// policy cannot judge the name of a regular file, or a file of the
/// rotation has no known creation time.
pub open spec fn fault<T: RollingFileNameProvider>(
    provider: &T,
    entries: Seq<DirectoryEntry>,
    i: int,
) -> Option<RollingError> {
    if !entries[i].is_file {
        None
    } else {
        match provider.judged(entries[i].file_name@) {
            Err(e) => Some(e),
            Ok(false) => None,
            Ok(true) => if entries[i].created is None {
                Some(RollingError::CreationTimeUnknown(i as usize))
            } else {
                None
            },
        }
    }
}

/// Entry `i` is the first of the listing that stops the pruning, with `e`.
pub open spec fn is_first_fault<T: RollingFileNameProvider>(
    provider: &T,
    entries: Seq<DirectoryEntry>,
    i: int,
    e: RollingError,
) -> bool {
    &&& 0 <= i < entries.len()
    &&& fault(provider, entries, i) == Some(e)
    &&& forall|j: int| 0 <= j < i ==> (#[trigger] fault(provider, entries, j)) is None
}

/// No entry of the listing stops the pruning.
pub open spec fn faultless<T: RollingFileNameProvider>(
    provider: &T,
    entries: Seq<DirectoryEntry>,
) -> bool {
    forall|j: int| 0 <= j < entries.len() ==> (#[trigger] fault(provider, entries, j)) is None
}

/// The number of entries that belong to the rotation.
pub open spec fn count_belonging<T: RollingFileNameProvider>(
    provider: &T,
    entries: Seq<DirectoryEntry>,
) -> nat
    decreases entries.len(),
{
    if entries.len() == 0 {
        0
    } else {
        count_belonging(provider, entries.drop_last()) + if belongs(provider, entries.last()) {
            1nat
        } else {
            0nat
        }
    }
}

/// The creation time of an entry whose creation time is known.
pub open spec fn created_at(entries: Seq<DirectoryEntry>, i: int) -> int {
    entries[i].created->0 as int
}

/// `removed` lists, by their places in the listing, the files that have to
/// go so that the `keep` newest files of the rotation stay: only files of
/// the rotation, none twice, as many as exceed the limit, none of them newer
/// than a file that stays, and the newer one first.
pub open spec fn is_expired<T: RollingFileNameProvider>(
    provider: &T,
    entries: Seq<DirectoryEntry>,
    keep: nat,
    removed: Seq<usize>,
) -> bool {
    &&& removed.no_duplicates()
    &&& forall|k: int|
        0 <= k < removed.len() ==> (#[trigger] removed[k]) < entries.len() && belongs(
            provider,
            entries[removed[k] as int],
        )
    &&& removed.len() == if count_belonging(provider, entries) > keep {
        count_belonging(provider, entries) - keep
    } else {
        0
    }
    &&& forall|i: usize, k: int|
        i < entries.len() && belongs(provider, #[trigger] entries[i as int]) && !removed.contains(
            i,
        ) && 0 <= k < removed.len() ==> created_at(entries, i as int) >= created_at(
            entries,
            (#[trigger] removed[k]) as int,
        )
    &&& forall|j: int, k: int|
        0 <= j < k < removed.len() ==> created_at(entries, (#[trigger] removed[j]) as int)
            >= created_at(entries, (#[trigger] removed[k]) as int)
}

/// The order of creation times with their places: by time, and by place
/// where the times are equal.
pub open spec fn in_order(a: (i128, usize), b: (i128, usize)) -> bool {
    a.0 < b.0 || (a.0 == b.0 && a.1 <= b.1)
}

/// Sorts ascending: `sort_unstable` of slices, on pairs of integers, which
/// std orders by the first part and then by the second. The contract claims
/// that the same pairs come out, each as often as it went in, and that no
/// pair stands before a smaller one.
#[verifier::external_body]
fn sort_ascending(ranked: &mut Vec<(i128, usize)>)
    ensures
        final(ranked)@.to_multiset() == old(ranked)@.to_multiset(),
        forall|a: int, b: int|
            0 <= a < b < final(ranked)@.len() ==> in_order(
                #[trigger] final(ranked)@[a],
                #[trigger] final(ranked)@[b],
            ),
{
    ranked.sort_unstable();
}

/// A pair of a creation time and a place stands for a file of the rotation.
spec fn stands_for<T: RollingFileNameProvider>(
    provider: &T,
    entries: Seq<DirectoryEntry>,
    pair: (i128, usize),
) -> bool {
    &&& pair.1 < entries.len()
    &&& belongs(provider, entries[pair.1 as int])
    &&& entries[pair.1 as int].created == Some(pair.0)
}

/// The files to delete so that only the `keep` newest files of the rotation
/// stay in a directory with these entries. Directories, and files whose
/// names the naming policy does not accept, are never chosen. Nothing is
/// chosen where an entry stops the pruning: the first such entry gives the
/// error.
pub fn expired<T: RollingFileNameProvider>(
    provider: &T,
    entries: &Vec<DirectoryEntry>,
    keep: usize,
) -> (outcome: Result<Vec<usize>, RollingError>)
    ensures
        match outcome {
            Ok(removed) => faultless(provider, entries@) && is_expired(
                provider,
                entries@,
                keep as nat,
                removed@,
            ),
            Err(e) => exists|i: int| is_first_fault(provider, entries@, i, e),
        },
{
    let mut ranked: Vec<(i128, usize)> = Vec::new();
    let mut i: usize = 0;
    assert(entries@.take(0) =~= Seq::empty());
    while i < entries.len()
        invariant
            i <= entries@.len(),
            forall|j: int| 0 <= j < i ==> (#[trigger] fault(provider, entries@, j)) is None,
            ranked@.len() == count_belonging(provider, entries@.take(i as int)),
            forall|k: int|
                0 <= k < ranked@.len() ==> (#[trigger] ranked@[k]).1 < i && stands_for(
                    provider,
                    entries@,
                    ranked@[k],
                ),
            forall|j: int, k: int|
                0 <= j < k < ranked@.len() ==> (#[trigger] ranked@[j]).1 < (#[trigger] ranked@[k]).1,
            forall|c: int|
                0 <= c < i && belongs(provider, #[trigger] entries@[c]) ==> ranked@.contains(
                    (entries@[c].created->0, c as usize),
                ),
        decreases entries@.len() - i,
    {
        let entry = &entries[i];
        let ghost before = ranked@;
        if entry.is_file {
            match provider.acceptable(entry.file_name.as_str()) {
                Err(e) => {
                    assert(is_first_fault(provider, entries@, i as int, e));
                    return Err(e);
                },
                Ok(false) => {},
                Ok(true) => {
                    match entry.created {
                        None => {
                            assert(is_first_fault(
                                provider,
                                entries@,
                                i as int,
                                RollingError::CreationTimeUnknown(i),
                            ));
                            return Err(RollingError::CreationTimeUnknown(i));
                        },
                        Some(created) => {
                            ranked.push((created, i));
                        },
                    }
                },
            }
        }
        proof {
            assert(entries@.take(i + 1).drop_last() =~= entries@.take(i as int));
            assert(entries@.take(i + 1).last() == entries@[i as int]);
            assert forall|c: int|
                0 <= c < i + 1 && belongs(provider, #[trigger] entries@[c]) implies ranked@.contains(
                (entries@[c].created->0, c as usize),
            ) by {
                if c < i {
                    let k = choose|k: int|
                        0 <= k < before.len() && before[k] == (entries@[c].created->0, c as usize);
                    assert(ranked@[k] == before[k]);
                } else {
                    assert(ranked@[ranked@.len() - 1] == (entries@[c].created->0, c as usize));
                }
            }
        }
        i += 1;
    }
    assert(entries@.take(i as int) =~= entries@);
    let ghost listed = ranked@;
    sort_ascending(&mut ranked);
    proof {
        broadcast use vstd::seq_lib::group_to_multiset_ensures;

        assert(ranked@.len() == listed.len()) by {
            assert(ranked@.to_multiset().len() == listed.to_multiset().len());
        }
        assert(listed.no_duplicates());
        listed.lemma_multiset_has_no_duplicates();
        ranked@.lemma_multiset_has_no_duplicates_conv();
        assert forall|k: int| 0 <= k < ranked@.len() implies stands_for(
            provider,
            entries@,
            #[trigger] ranked@[k],
        ) by {
            assert(ranked@.contains(ranked@[k]));
            assert(ranked@.to_multiset().count(ranked@[k]) > 0);
            assert(listed.contains(ranked@[k]));
        }
        assert forall|c: int|
            0 <= c < entries@.len() && belongs(provider, #[trigger] entries@[c]) implies ranked@.contains(
            (entries@[c].created->0, c as usize),
        ) by {
            let pair = (entries@[c].created->0, c as usize);
            assert(listed.contains(pair));
            assert(ranked@.to_multiset().count(pair) > 0);
        }
    }
    let mut removed: Vec<usize> = Vec::new();
    if ranked.len() <= keep {
        return Ok(removed);
    }
    let excess: usize = ranked.len() - keep;
    let mut k: usize = excess;
    while k > 0
        invariant
            k <= excess,
            excess <= ranked@.len(),
            removed@.len() == excess - k,
            forall|j: int|
                0 <= j < removed@.len() ==> #[trigger] removed@[j] == ranked@[excess - 1 - j].1,
        decreases k,
    {
        k -= 1;
        removed.push(ranked[k].1);
    }
    proof {
        assert forall|a: int, b: int|
            0 <= a < removed@.len() && 0 <= b < removed@.len() && a != b implies removed@[a]
            != removed@[b] by {
            let x = ranked@[excess - 1 - a];
            let y = ranked@[excess - 1 - b];
            assert(stands_for(provider, entries@, x) && stands_for(provider, entries@, y));
            if x.1 == y.1 {
                assert(x == y);
            }
        }
        assert forall|j: int| 0 <= j < removed@.len() implies (#[trigger] removed@[j])
            < entries@.len() && belongs(provider, entries@[removed@[j] as int]) by {
            assert(stands_for(provider, entries@, ranked@[excess - 1 - j]));
        }
        assert forall|c: usize, j: int|
            c < entries@.len() && belongs(provider, #[trigger] entries@[c as int])
                && !removed@.contains(c) && 0 <= j < removed@.len() implies created_at(
            entries@,
            c as int,
        ) >= created_at(entries@, (#[trigger] removed@[j]) as int) by {
            let pair = (entries@[c as int].created->0, c);
            let p = choose|p: int| 0 <= p < ranked@.len() && ranked@[p] == pair;
            if p < excess {
                assert(removed@[excess - 1 - p] == c);
            }
            assert(stands_for(provider, entries@, ranked@[excess - 1 - j]));
            assert(in_order(ranked@[excess - 1 - j], ranked@[p]));
        }
        assert forall|a: int, b: int| 0 <= a < b < removed@.len() implies created_at(
            entries@,
            (#[trigger] removed@[a]) as int,
        ) >= created_at(entries@, (#[trigger] removed@[b]) as int) by {
            assert(stands_for(provider, entries@, ranked@[excess - 1 - a]));
            assert(stands_for(provider, entries@, ranked@[excess - 1 - b]));
            assert(in_order(ranked@[excess - 1 - b], ranked@[excess - 1 - a]));
        }
    }
    Ok(removed)
}

} // verus!
