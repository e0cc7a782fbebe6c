//! Scan results and the choice of a radio channel from them.

use vstd::prelude::*;

verus! {

/// One network seen by a scan. Only the name and the channel are read; every
/// other attribute a radio reports is dropped before a record is built.
#[derive(Debug, PartialEq, Eq)]
pub struct AccessPointRecord {
    pub ssid: String,
    pub channel: u8,
}

/// Mathematical model of an [`AccessPointRecord`].
pub struct ScanEntry {
    pub ssid: Seq<char>,
    pub channel: u8,
}

impl View for AccessPointRecord {
    type V = ScanEntry;

    open spec fn view(&self) -> ScanEntry {
        ScanEntry { ssid: self.ssid@, channel: self.channel }
    }
}

impl Clone for AccessPointRecord {
    fn clone(&self) -> (copy: AccessPointRecord)
        ensures
            copy@ == self@,
    {
        AccessPointRecord { ssid: self.ssid.clone(), channel: self.channel }
    }
}

/// The model of a whole scan result, entry by entry, in scan order.
pub open spec fn entries(records: Seq<AccessPointRecord>) -> Seq<ScanEntry> {
    Seq::new(records.len(), |i: int| records[i]@)
}

/// `i` is the position of the first entry whose name is exactly `target`.
pub open spec fn is_first_match(scan: Seq<ScanEntry>, target: Seq<char>, i: int) -> bool {
    &&& 0 <= i < scan.len()
    &&& scan[i].ssid == target
    &&& forall|j: int| 0 <= j < i ==> (#[trigger] scan[j]).ssid != target
}

/// No entry of the scan is named `target`.
pub open spec fn has_no_match(scan: Seq<ScanEntry>, target: Seq<char>) -> bool {
    forall|j: int| 0 <= j < scan.len() ==> (#[trigger] scan[j]).ssid != target
}

/// The channel chosen from a scan: that of the first entry named `target`,
/// or none when the scan holds no such entry.
pub open spec fn selected_channel(scan: Seq<ScanEntry>, target: Seq<char>) -> Option<u8>
    decreases scan.len(),
{
    if scan.len() == 0 {
        None
    } else if scan.first().ssid == target {
        Some(scan.first().channel)
    } else {
        selected_channel(scan.drop_first(), target)
    }
}

/// Whenever a scan holds an entry named `target`, the selected channel is the
/// channel of the first such entry.
pub proof fn selection_takes_first_match(scan: Seq<ScanEntry>, target: Seq<char>, i: int)
    requires
        is_first_match(scan, target, i),
    ensures
        selected_channel(scan, target) == Some(scan[i].channel),
    decreases i,
{
    if i > 0 {
        let rest = scan.drop_first();
        assert(scan[0].ssid != target);
        assert forall|j: int| 0 <= j < i - 1 implies (#[trigger] rest[j]).ssid != target by {
            assert(rest[j] == scan[j + 1]);
        }
        assert(rest[i - 1] == scan[i]);
        selection_takes_first_match(rest, target, i - 1);
    }
}

/// A scan without any entry named `target` selects no channel.
pub proof fn selection_without_match(scan: Seq<ScanEntry>, target: Seq<char>)
    requires
        has_no_match(scan, target),
    ensures
        selected_channel(scan, target) is None,
    decreases scan.len(),
{
    if scan.len() > 0 {
        let rest = scan.drop_first();
        assert(scan[0].ssid != target);
        assert forall|j: int| 0 <= j < rest.len() implies (#[trigger] rest[j]).ssid != target by {
            assert(rest[j] == scan[j + 1]);
        }
        selection_without_match(rest, target);
    }
}

/// What the selection returns, in full: a channel exactly when some entry is
/// named `target`, and then the channel of the first such entry.
pub proof fn selection_characterised(scan: Seq<ScanEntry>, target: Seq<char>)
    ensures
        match selected_channel(scan, target) {
            Some(channel) => exists|i: int|
                is_first_match(scan, target, i) && (#[trigger] scan[i]).channel == channel,
            None => has_no_match(scan, target),
        },
    decreases scan.len(),
{
    if scan.len() == 0 {
    } else if scan.first().ssid == target {
        assert(is_first_match(scan, target, 0));
    } else {
        let rest = scan.drop_first();
        selection_characterised(rest, target);
        match selected_channel(rest, target) {
            Some(channel) => {
                let i = choose|i: int|
                    is_first_match(rest, target, i) && (#[trigger] rest[i]).channel == channel;
                assert(rest[i] == scan[i + 1]);
                assert forall|j: int| 0 <= j < i + 1 implies (#[trigger] scan[j]).ssid
                    != target by {
                    if j > 0 {
                        assert(scan[j] == rest[j - 1]);
                    }
                }
                assert(is_first_match(scan, target, i + 1));
            },
            None => {
                assert forall|j: int| 0 <= j < scan.len() implies (#[trigger] scan[j]).ssid
                    != target by {
                    if j > 0 {
                        assert(scan[j] == rest[j - 1]);
                    }
                }
            },
        }
    }
}

/// Selection has no hidden input: two scans that hold the same entries in the
/// same order select the same channel.
pub proof fn identical_scans_select_alike(
    first: Seq<ScanEntry>,
    second: Seq<ScanEntry>,
    target: Seq<char>,
)
    requires
        first.len() == second.len(),
        forall|i: int| 0 <= i < first.len() ==> first[i] == second[i],
    ensures
        selected_channel(first, target) == selected_channel(second, target),
{
    assert(first =~= second);
}

/// All entries named `target` report the same channel.
pub open spec fn matches_agree(scan: Seq<ScanEntry>, target: Seq<char>) -> bool {
    forall|i: int, j: int|
        0 <= i < scan.len() && 0 <= j < scan.len() && (#[trigger] scan[i]).ssid == target && (
        #[trigger] scan[j]).ssid == target ==> scan[i].channel == scan[j].channel
}

/// The order in which a radio reports the networks does not matter as long as
/// the entries named `target` agree on the channel: two scans that hold the
/// same entries, in whatever order, then select the same channel.
pub proof fn scan_order_is_irrelevant(
    first: Seq<ScanEntry>,
    second: Seq<ScanEntry>,
    target: Seq<char>,
)
    requires
        first.to_multiset() == second.to_multiset(),
        matches_agree(first, target),
    ensures
        selected_channel(first, target) == selected_channel(second, target),
{
    first.to_multiset_ensures();
    second.to_multiset_ensures();
    selection_characterised(first, target);
    selection_characterised(second, target);
    match selected_channel(second, target) {
        Some(theirs) => {
            let k = choose|k: int|
                is_first_match(second, target, k) && (#[trigger] second[k]).channel == theirs;
            assert(second.contains(second[k]));
            assert(first.to_multiset().count(second[k]) > 0);
            assert(first.contains(second[k]));
            let m = choose|m: int| 0 <= m < first.len() && first[m] == second[k];
            assert(first[m].ssid == target);
            match selected_channel(first, target) {
                Some(ours) => {
                    let i = choose|i: int|
                        is_first_match(first, target, i) && (#[trigger] first[i]).channel == ours;
                    assert(first[i].channel == first[m].channel);
                },
                None => {},
            }
        },
        None => {
            match selected_channel(first, target) {
                Some(ours) => {
                    let i = choose|i: int|
                        is_first_match(first, target, i) && (#[trigger] first[i]).channel == ours;
                    assert(first.contains(first[i]));
                    assert(second.to_multiset().count(first[i]) > 0);
                    assert(second.contains(first[i]));
                    let k = choose|k: int| 0 <= k < second.len() && second[k] == first[i];
                    assert(second[k].ssid == target);
                },
                None => {},
            }
        },
    }
}

/// Picks the channel of the network named `target` out of a scan result.
///
/// Names are compared exactly and case-sensitively. If several records carry
/// the name, the first in scan order decides.
pub fn select_channel(records: &Vec<AccessPointRecord>, target: &str) -> (channel: Option<u8>)
    ensures
        channel == selected_channel(entries(records@), target@),
        match channel {
            Some(found) => exists|i: int|
                is_first_match(entries(records@), target@, i) && (#[trigger] entries(
                    records@,
                )[i]).channel == found,
            None => has_no_match(entries(records@), target@),
        },
{
    proof {
        selection_characterised(entries(records@), target@);
    }
    let wanted: String = target.to_owned();
    let mut i: usize = 0;
    while i < records.len()
        invariant
            i <= records.len(),
            wanted@ == target@,
            forall|j: int| 0 <= j < i ==> (#[trigger] entries(records@)[j]).ssid != target@,
        decreases records.len() - i,
    {
        if records[i].ssid == wanted {
            proof {
                selection_takes_first_match(entries(records@), target@, i as int);
            }
            return Some(records[i].channel);
        }
        i += 1;
    }
    proof {
        selection_without_match(entries(records@), target@);
    }
    None
}

} // verus!
