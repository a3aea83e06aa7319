//! The conflict detection system: the detectors behind a bounded cache.

use vstd::prelude::*;
use crate::conflict::{ConflictInfo, ConflictView, check_shortcut_conflicts, conflicts_of, findings};
use crate::keys::Platform;
use crate::shortcut::{RecordingShortcut, ShortcutView};

verus! {

/// The most results the cache keeps. One more, and it is emptied.
pub const CACHE_LIMIT: usize = 1000;

/// A shortcut and what the detectors found about it.
struct CacheEntry {
    shortcut: RecordingShortcut,
    conflicts: Vec<ConflictInfo>,
}

/// Conflict detection with remembered results.
///
/// A result is computed once per shortcut and served from the cache until
/// the cache is emptied. The number of computations made so far can be read
/// back, so that a caller can tell a cache hit from a computation.
pub struct ConflictDetectionSystem {
    platform: Platform,
    cache: Vec<CacheEntry>,
    computations: u64,
}

/// A copy of a list of findings.
pub fn copy_findings(list: &Vec<ConflictInfo>) -> (copy: Vec<ConflictInfo>)
    ensures
        findings(copy@) == findings(list@),
{
    let mut copy: Vec<ConflictInfo> = Vec::new();
    let mut i: usize = 0;
    while i < list.len()
        invariant
            i <= list.len(),
            copy@.len() == i,
            forall|j: int| 0 <= j < i ==> copy@[j]@ == list@[j]@,
        decreases list.len() - i,
    {
        copy.push(list[i].clone());
        i += 1;
    }
    copy
}

impl ConflictDetectionSystem {
    /// The invariant of the cache: it stays within its limit, holds no
    /// shortcut twice, and holds for each shortcut what the detectors find.
    pub closed spec fn wf(&self) -> bool {
        &&& self.cache@.len() <= CACHE_LIMIT
        &&& forall|i: int|
            0 <= i < self.cache@.len() ==> findings((#[trigger] self.cache@[i]).conflicts@)
                == conflicts_of(self.cache@[i].shortcut@, self.platform)
        &&& forall|i: int, j: int|
            0 <= i < j < self.cache@.len() ==> (#[trigger] self.cache@[i]).shortcut@
                != (#[trigger] self.cache@[j]).shortcut@
    }

    /// The platform whose reserved shortcuts are checked.
    pub closed spec fn platform(&self) -> Platform {
        self.platform
    }

    /// The shortcuts whose results are remembered, oldest first.
    pub closed spec fn cached(&self) -> Seq<ShortcutView> {
        self.cache@.map_values(|entry: CacheEntry| entry.shortcut@)
    }

    /// How many times the detectors have been run.
    pub closed spec fn computed(&self) -> nat {
        self.computations as nat
    }

    /// A system for `platform` with an empty cache.
    pub fn new(platform: Platform) -> (system: Self)
        ensures
            system.wf(),
            system.platform() == platform,
            system.cached() == Seq::<ShortcutView>::empty(),
            system.computed() == 0,
    {
        let system = ConflictDetectionSystem { platform, cache: Vec::new(), computations: 0 };
        system
    }

    /// The findings about `shortcut`, in detector order.
    ///
    /// A remembered result is returned without running the detectors.
    /// Otherwise the detectors run once and the result is remembered, unless
    /// the cache already holds `CACHE_LIMIT` results: then it is emptied.
    pub fn check_conflicts(&mut self, shortcut: &RecordingShortcut) -> (list: Vec<ConflictInfo>)
        requires
            old(self).wf(),
        ensures
            final(self).wf(),
            findings(list@) == conflicts_of(shortcut@, old(self).platform()),
            final(self).platform() == old(self).platform(),
            old(self).cached().contains(shortcut@) ==> final(self).cached() == old(self).cached()
                && final(self).computed() == old(self).computed(),
            !old(self).cached().contains(shortcut@) ==> final(self).computed() == (if old(self).computed()
                < u64::MAX {
                old(self).computed() + 1
            } else {
                old(self).computed()
            }) && final(self).cached() == (if old(self).cached().len() < CACHE_LIMIT {
                old(self).cached().push(shortcut@)
            } else {
                Seq::<ShortcutView>::empty()
            }),
    {
        let mut i: usize = 0;
        while i < self.cache.len()
            invariant
                i <= self.cache.len(),
                *self == *old(self),
                self.wf(),
                forall|j: int| 0 <= j < i ==> self.cache@[j].shortcut@ != shortcut@,
            decreases self.cache.len() - i,
        {
            if self.cache[i].shortcut.same_as(shortcut) {
                proof {
                    assert(self.cached()[i as int] == shortcut@);
                }
                return copy_findings(&self.cache[i].conflicts);
            }
            i += 1;
        }
        assert(!self.cached().contains(shortcut@));
        let list = check_shortcut_conflicts(shortcut, self.platform);
        if self.computations < u64::MAX {
            self.computations = self.computations + 1;
        }
        if self.cache.len() < CACHE_LIMIT {
            let entry = CacheEntry { shortcut: shortcut.clone(), conflicts: copy_findings(&list) };
            self.cache.push(entry);
        } else {
            self.cache.clear();
        }
        list
    }

    /// Forgets every remembered result.
    pub fn clear_cache(&mut self)
        ensures
            final(self).wf(),
            final(self).cached() == Seq::<ShortcutView>::empty(),
            final(self).platform() == old(self).platform(),
            final(self).computed() == old(self).computed(),
    {
        self.cache.clear();
    }

    /// The number of remembered results.
    pub fn cache_len(&self) -> (n: usize)
        ensures
            n == self.cached().len(),
            self.wf() ==> n <= CACHE_LIMIT,
    {
        self.cache.len()
    }

    /// How many times the detectors have been run since creation.
    pub fn computations(&self) -> (n: u64)
        ensures
            n == self.computed(),
    {
        self.computations
    }
}

} // verus!
