//! What the watch loop decides: which of the player's user directories to
//! watch, and what to do with each thing that the watch mechanism delivers.

use vstd::prelude::*;

verus! {

/// The name of the file in which the player keeps its playback state, one in
/// each user's directory.
pub open spec fn state_file() -> Seq<char> {
    "ad-state-storage.bnk"@
}

/// The name of the file in which the player keeps its playback state.
pub fn state_file_name() -> (r: &'static str)
    ensures
        r@ == state_file(),
{
    "ad-state-storage.bnk"
}

/// What was found of one entry of the directory that holds the users'
/// directories.
#[derive(Clone, Copy, Debug, PartialEq, Eq, Structural)]
pub struct Entry {
    /// The entry is a directory.
    pub is_dir: bool,
    /// A file of the state file's name exists in it.
    pub has_state_file: bool,
}

impl Entry {
    /// An entry is watched when it is a directory that holds a state file.
    pub open spec fn watched(self) -> bool {
        self.is_dir && self.has_state_file
    }

    /// Whether the state file of this entry is to be watched.
    pub fn is_target(&self) -> (r: bool)
        ensures
            r == self.watched(),
    {
        self.is_dir && self.has_state_file
    }
}

/// The watch mechanism reported a failure of its own in place of a change.
#[derive(Clone, Copy, Debug, PartialEq, Eq, Structural)]
pub struct WatchDeliveryError;

/// What the loop does with one delivery.
#[derive(Clone, Copy, Debug, PartialEq, Eq, Structural)]
pub enum Reaction {
    /// Handle the notification: once, and to its end, before the next
    /// delivery is taken.
    HandleEvent,
    /// Report the failure and wait for the next delivery.
    Report(WatchDeliveryError),
}

/// The positions of the entries to watch, in the order of the entries.
pub open spec fn is_selection(entries: Seq<Entry>, picked: Seq<usize>) -> bool {
    &&& forall|k: int| 0 <= k < picked.len() ==> #[trigger] picked[k] < entries.len()
    &&& forall|k: int| 0 <= k < picked.len() ==> entries[#[trigger] picked[k] as int].watched()
    &&& forall|j: int, k: int| 0 <= j < k < picked.len() ==> picked[j] < picked[k]
    &&& forall|i: int|
        0 <= i < entries.len() && (#[trigger] entries[i]).watched() ==> picked.contains(i as usize)
}

/// Picks the entries to watch: every directory that holds a state file, none
/// else, each once, in the order in which the entries came.
pub fn select_targets(entries: &Vec<Entry>) -> (r: Vec<usize>)
    ensures
        is_selection(entries@, r@),
{
    let mut picked: Vec<usize> = Vec::new();
    let mut i: usize = 0;
    while i < entries.len()
        invariant
            i <= entries@.len(),
            is_selection(entries@.take(i as int), picked@),
        decreases entries@.len() - i,
    {
        let ghost before = picked@;
        if entries[i].is_target() {
            picked.push(i);
        }
        proof {
            let seen = entries@.take(i + 1);
            assert forall|j: int|
                0 <= j < seen.len() && (#[trigger] seen[j]).watched() implies picked@.contains(
                j as usize,
            ) by {
                if j < i {
                    let k = choose|k: int| 0 <= k < before.len() && before[k] == j as usize;
                    assert(picked@[k] == j as usize);
                } else {
                    assert(picked@[picked@.len() - 1] == i);
                }
            }
        }
        i += 1;
    }
    assert(entries@.take(entries@.len() as int) =~= entries@);
    picked
}

/// Decides what to do with one delivery: a notification is handled, whatever
/// path it names; a failure is reported and never ends the loop.
pub fn react(delivery: Result<(), WatchDeliveryError>) -> (r: Reaction)
    ensures
        r == match delivery {
            Ok(_) => Reaction::HandleEvent,
            Err(error) => Reaction::Report(error),
        },
{
    match delivery {
        Ok(_) => Reaction::HandleEvent,
        Err(error) => Reaction::Report(error),
    }
}

} // verus!
