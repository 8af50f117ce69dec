//! Per-device audio profiles: the user's preferences for each output
//! device, keyed by the device's name.
//!
//! The store itself is a vector with unique names; lookups, updates and
//! deletions are exact. Persistence is a plain JSON mapping and lives with
//! the host (it is file I/O); the host converts between this type and its
//! serialisable copy field by field.

use vstd::prelude::*;
use crate::bits::ONE_BITS;
use crate::gain::ReplayGainMode;

verus! {

/// Preferences for one output device. The volume is a float bit pattern.
pub struct DeviceProfile {
    pub device_name: String,
    /// Exclusive (true) or shared (false) output mode.
    pub exclusive_mode: bool,
    /// Preferred buffer size in frames; 0 means the system default.
    pub buffer_size: u32,
    pub volume: u32,
    pub replaygain_mode: ReplayGainMode,
    pub clipping_prevention: bool,
}

impl DeviceProfile {
    /// Field-for-field copy.
    pub fn duplicate(&self) -> (r: DeviceProfile)
        ensures
            r == *self,
    {
        DeviceProfile {
            device_name: self.device_name.clone(),
            exclusive_mode: self.exclusive_mode,
            buffer_size: self.buffer_size,
            volume: self.volume,
            replaygain_mode: self.replaygain_mode,
            clipping_prevention: self.clipping_prevention,
        }
    }
}

impl Default for DeviceProfile {
    /// An unnamed profile with the documented defaults.
    fn default() -> (r: Self)
        ensures
            r.device_name@ == Seq::<char>::empty(),
            !r.exclusive_mode,
            r.buffer_size == 0,
            r.volume == ONE_BITS,
            r.replaygain_mode == ReplayGainMode::Off,
            r.clipping_prevention,
    {
        DeviceProfile {
            device_name: String::new(),
            exclusive_mode: false,
            buffer_size: 0,
            volume: ONE_BITS,
            replaygain_mode: ReplayGainMode::Off,
            clipping_prevention: true,
        }
    }
}

/// The first profile with the given name, if any.
pub open spec fn spec_find(profiles: Seq<DeviceProfile>, name: Seq<char>) -> Option<DeviceProfile>
    decreases profiles.len(),
{
    if profiles.len() == 0 {
        None
    } else if profiles[0].device_name@ == name {
        Some(profiles[0])
    } else {
        spec_find(profiles.skip(1), name)
    }
}

/// All saved profiles, names unique.
pub struct DeviceProfileStore {
    profiles: Vec<DeviceProfile>,
}

impl DeviceProfileStore {
    /// The saved profiles, in insertion order.
    pub closed spec fn view_profiles(&self) -> Seq<DeviceProfile> {
        self.profiles@
    }

    /// Names are unique, so `spec_find` is the whole story of a lookup.
    pub open spec fn wf(&self) -> bool {
        forall|i: int, j: int|
            0 <= i < j < self.view_profiles().len() ==> self.view_profiles()[i].device_name@
                != self.view_profiles()[j].device_name@
    }

    /// An empty store.
    pub fn new() -> (r: DeviceProfileStore)
        ensures
            r.wf(),
            r.view_profiles() == Seq::<DeviceProfile>::empty(),
    {
        DeviceProfileStore { profiles: Vec::new() }
    }

    /// The profile saved for the device, or the defaults carrying the
    /// device's name when none was saved.
    pub fn get(&self, device_name: &String) -> (r: DeviceProfile)
        requires
            self.wf(),
        ensures
            (match spec_find(self.view_profiles(), device_name@) {
                Some(p) => r == p,
                None => {
                    &&& r.device_name@ == device_name@
                    &&& !r.exclusive_mode
                    &&& r.buffer_size == 0
                    &&& r.volume == ONE_BITS
                    &&& r.replaygain_mode == ReplayGainMode::Off
                    &&& r.clipping_prevention
                },
            }),
    {
        let mut i: usize = 0;
        proof {
            assert(self.profiles@.skip(0) =~= self.profiles@);
        }
        while i < self.profiles.len()
            invariant
                i <= self.profiles@.len(),
                spec_find(self.profiles@, device_name@) == spec_find(
                    self.profiles@.skip(i as int),
                    device_name@,
                ),
            decreases self.profiles@.len() - i,
        {
            proof {
                assert(self.profiles@.skip(i as int)[0] == self.profiles@[i as int]);
                assert(self.profiles@.skip(i as int).skip(1) =~= self.profiles@.skip(i + 1));
            }
            if self.profiles[i].device_name.eq(device_name) {
                return self.profiles[i].duplicate();
            }
            i = i + 1;
        }
        proof {
            assert(self.profiles@.skip(i as int).len() == 0);
        }
        let mut p = DeviceProfile::default();
        p.device_name = device_name.clone();
        p
    }

    /// Remove any profile with the name; used by `set` and `delete`.
    fn remove_name(&mut self, device_name: &String)
        requires
            old(self).wf(),
        ensures
            final(self).wf(),
            spec_find(final(self).view_profiles(), device_name@).is_none(),
            forall|n: Seq<char>|
                n != device_name@ ==> spec_find(final(self).view_profiles(), n) == spec_find(
                    old(self).view_profiles(),
                    n,
                ),
    {
        let ghost old_profiles = self.profiles@;
        let mut out: Vec<DeviceProfile> = Vec::new();
        let mut i: usize = 0;
        proof {
            assert(old_profiles.take(0) =~= Seq::<DeviceProfile>::empty());
        }
        while i < self.profiles.len()
            invariant
                i <= self.profiles@.len(),
                self.profiles@ == old_profiles,
                forall|k1: int, k2: int|
                    0 <= k1 < k2 < old_profiles.len() ==> old_profiles[k1].device_name@
                        != old_profiles[k2].device_name@,
                forall|k: int|
                    0 <= k < out@.len() ==> old_profiles.take(i as int).contains(
                        #[trigger] out@[k],
                    ),
                forall|k: int| 0 <= k < out@.len() ==> out@[k].device_name@ != device_name@,
                forall|k1: int, k2: int|
                    0 <= k1 < k2 < out@.len() ==> out@[k1].device_name@ != out@[k2].device_name@,
                forall|n: Seq<char>|
                    n != device_name@ ==> spec_find(out@, n) == spec_find(
                        old_profiles.take(i as int),
                        n,
                    ),
            decreases self.profiles@.len() - i,
        {
            let keep = !self.profiles[i].device_name.eq(device_name);
            let ghost out_before = out@;
            if keep {
                let p = self.profiles[i].duplicate();
                out.push(p);
            }
            proof {
                assert forall|n: Seq<char>| n != device_name@ implies spec_find(out@, n)
                    == spec_find(old_profiles.take(i + 1), n) by {
                    lemma_find_take_step(old_profiles, i as int, n);
                    if keep {
                        if spec_find(out_before, n).is_some() {
                            lemma_find_push_some(out_before, old_profiles[i as int], n);
                        } else if old_profiles[i as int].device_name@ == n {
                            lemma_find_push_found(out_before, old_profiles[i as int]);
                        } else {
                            lemma_find_push(out_before, old_profiles[i as int], n);
                        }
                    }
                }
                assert forall|k: int| 0 <= k < out@.len() implies old_profiles.take(
                    i + 1,
                ).contains(#[trigger] out@[k]) by {
                    if k < out_before.len() {
                        let w = choose|w: int|
                            0 <= w < old_profiles.take(i as int).len() && old_profiles.take(
                                i as int,
                            )[w] == out_before[k];
                        assert(old_profiles.take(i + 1)[w] == out@[k]);
                    } else {
                        assert(old_profiles.take(i + 1)[i as int] == out@[k]);
                    }
                }
                if keep {
                    assert forall|k1: int, k2: int|
                        0 <= k1 < k2 < out@.len() implies out@[k1].device_name@
                        != out@[k2].device_name@ by {
                        if k2 == out@.len() - 1 {
                            let w = choose|w: int|
                                0 <= w < old_profiles.take(i as int).len() && old_profiles.take(
                                    i as int,
                                )[w] == out_before[k1];
                            assert(old_profiles[w] == out@[k1]);
                        }
                    }
                }
            }
            i = i + 1;
        }
        proof {
            assert(old_profiles.take(old_profiles.len() as int) =~= old_profiles);
            lemma_find_absent(out@, device_name@);
        }
        self.profiles = out;
    }

    /// Save or update the profile for its device: afterwards a lookup of
    /// its name finds exactly it, and every other name finds what it did
    /// before.
    pub fn set(&mut self, profile: DeviceProfile)
        requires
            old(self).wf(),
        ensures
            final(self).wf(),
            spec_find(final(self).view_profiles(), profile.device_name@) == Some(profile),
            forall|n: Seq<char>|
                n != profile.device_name@ ==> spec_find(final(self).view_profiles(), n)
                    == spec_find(old(self).view_profiles(), n),
    {
        let ghost name = profile.device_name@;
        self.remove_name(&profile.device_name);
        let ghost pre = self.profiles@;
        self.profiles.push(profile);
        proof {
            lemma_find_push_found(pre, profile);
            assert forall|n: Seq<char>| n != name implies spec_find(self.profiles@, n)
                == spec_find(pre, n) by {
                lemma_find_push(pre, profile, n);
            }
            assert forall|i: int, j: int|
                0 <= i < j < self.profiles@.len() implies self.profiles@[i].device_name@
                != self.profiles@[j].device_name@ by {
                if j == self.profiles@.len() - 1 {
                    lemma_found_if_present(pre, self.profiles@[i], name);
                }
            }
        }
    }

    /// All saved profiles.
    pub fn list(&self) -> (r: Vec<DeviceProfile>)
        ensures
            r@ == self.view_profiles(),
    {
        let mut r: Vec<DeviceProfile> = Vec::new();
        let mut i: usize = 0;
        while i < self.profiles.len()
            invariant
                i <= self.profiles@.len(),
                r@.len() == i,
                forall|j: int| 0 <= j < i ==> r@[j] == self.profiles@[j],
            decreases self.profiles@.len() - i,
        {
            let p = self.profiles[i].duplicate();
            r.push(p);
            i = i + 1;
        }
        proof {
            assert(r@ =~= self.profiles@);
        }
        r
    }

    /// Delete the profile for the device, if any; every other name keeps
    /// its profile.
    pub fn delete(&mut self, device_name: &String)
        requires
            old(self).wf(),
        ensures
            final(self).wf(),
            spec_find(final(self).view_profiles(), device_name@).is_none(),
            forall|n: Seq<char>|
                n != device_name@ ==> spec_find(final(self).view_profiles(), n) == spec_find(
                    old(self).view_profiles(),
                    n,
                ),
    {
        self.remove_name(device_name);
    }
}

/// Scanning one element further: how the lookup over a prefix evolves.
proof fn lemma_find_take_step(s: Seq<DeviceProfile>, i: int, n: Seq<char>)
    requires
        0 <= i < s.len(),
    ensures
        spec_find(s.take(i), n).is_some() ==> spec_find(s.take(i + 1), n) == spec_find(
            s.take(i),
            n,
        ),
        s[i].device_name@ != n && spec_find(s.take(i), n).is_none() ==> spec_find(
            s.take(i + 1),
            n,
        ).is_none(),
        s[i].device_name@ == n && spec_find(s.take(i), n).is_none() ==> spec_find(s.take(i + 1), n)
            == Some(s[i]),
    decreases i,
{
    if i == 0 {
        assert(s.take(1)[0] == s[0]);
        assert(s.take(1).skip(1) =~= s.take(0));
    } else {
        assert(s.take(i + 1)[0] == s[0]);
        assert(s.take(i)[0] == s[0]);
        if s[0].device_name@ != n {
            assert(s.take(i + 1).skip(1) =~= s.skip(1).take(i));
            assert(s.take(i).skip(1) =~= s.skip(1).take(i - 1));
            assert(s.skip(1)[i - 1] == s[i]);
            lemma_find_take_step(s.skip(1), i - 1, n);
        }
    }
}

/// Pushing anything after a hit leaves the lookup unchanged.
proof fn lemma_find_push_some(s: Seq<DeviceProfile>, p: DeviceProfile, n: Seq<char>)
    requires
        spec_find(s, n).is_some(),
    ensures
        spec_find(s.push(p), n) == spec_find(s, n),
    decreases s.len(),
{
    if s.len() > 0 {
        assert(s.push(p)[0] == s[0]);
        assert(s.push(p).skip(1) =~= s.skip(1).push(p));
        if s[0].device_name@ != n {
            lemma_find_push_some(s.skip(1), p, n);
        }
    }
}

/// Pushing an element whose name is not `n` leaves the lookup of `n`
/// unchanged.
proof fn lemma_find_push(s: Seq<DeviceProfile>, p: DeviceProfile, n: Seq<char>)
    requires
        p.device_name@ != n,
    ensures
        spec_find(s.push(p), n) == spec_find(s, n),
    decreases s.len(),
{
    if s.len() == 0 {
        assert(s.push(p)[0] == p);
        assert(s.push(p).skip(1) =~= Seq::<DeviceProfile>::empty());
        assert(spec_find(s.push(p).skip(1), n).is_none());
        assert(spec_find(s.push(p), n).is_none());
    } else {
        assert(s.push(p)[0] == s[0]);
        assert(s.push(p).skip(1) =~= s.skip(1).push(p));
        lemma_find_push(s.skip(1), p, n);
        if s[0].device_name@ == n {
            assert(spec_find(s.push(p), n) == Some(s.push(p)[0]));
            assert(spec_find(s, n) == Some(s[0]));
        } else {
            assert(spec_find(s.push(p), n) == spec_find(s.push(p).skip(1), n));
            assert(spec_find(s, n) == spec_find(s.skip(1), n));
        }
    }
}

/// Pushing onto a store where the name is absent makes the lookup find the
/// pushed profile.
proof fn lemma_find_push_found(s: Seq<DeviceProfile>, p: DeviceProfile)
    requires
        spec_find(s, p.device_name@).is_none(),
    ensures
        spec_find(s.push(p), p.device_name@) == Some(p),
    decreases s.len(),
{
    if s.len() == 0 {
        assert(s.push(p)[0] == p);
    } else {
        assert(s.push(p)[0] == s[0]);
        assert(s.push(p).skip(1) =~= s.skip(1).push(p));
        lemma_find_push_found(s.skip(1), p);
    }
}

/// In a store where no element carries the name, the lookup misses.
proof fn lemma_find_absent(s: Seq<DeviceProfile>, n: Seq<char>)
    requires
        forall|k: int| 0 <= k < s.len() ==> s[k].device_name@ != n,
    ensures
        spec_find(s, n).is_none(),
    decreases s.len(),
{
    if s.len() > 0 {
        assert forall|k: int| 0 <= k < s.skip(1).len() implies s.skip(1)[k].device_name@ != n by {
            assert(s.skip(1)[k] == s[k + 1]);
        }
        lemma_find_absent(s.skip(1), n);
    }
}

/// An element the store contains whose name the lookup misses cannot carry
/// that name.
proof fn lemma_found_if_present(s: Seq<DeviceProfile>, p: DeviceProfile, n: Seq<char>)
    requires
        s.contains(p),
        spec_find(s, n).is_none(),
    ensures
        p.device_name@ != n,
    decreases s.len(),
{
    if s.len() > 0 {
        if s[0] == p {
        } else {
            let w = choose|w: int| 0 <= w < s.len() && s[w] == p;
            assert(s.skip(1)[w - 1] == p);
            lemma_found_if_present(s.skip(1), p, n);
        }
    }
}

} // verus!
