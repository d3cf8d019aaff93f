use vstd::prelude::*;

use std::collections::HashSet;

use crate::timing::TimeSpan;

verus! {

broadcast use vstd::std_specs::hash::group_hash_axioms;

/// When the cache retires a generation.
#[derive(Debug, Clone, Copy, PartialEq, Eq, Structural)]
pub enum RotationPolicy {
    /// Rotate when the gap since the previous call exceeds the window.
    /// Under steady traffic this never rotates.
    GapSinceLastCall,
    /// Rotate when more than one window has passed since the last rotation.
    FixedCadence,
}

/// A time-windowed set of accepted nonces, kept as two generations.
///
/// `current` receives every nonce seen; on rotation it becomes `expiring`
/// and the old `expiring` generation is dropped.
pub struct ExpiringNonceCache {
    expiring: HashSet<u128>,
    current: HashSet<u128>,
    last_activity: TimeSpan,
    last_rotation: TimeSpan,
    max_expiration: TimeSpan,
    policy: RotationPolicy,
}

impl ExpiringNonceCache {
    pub closed spec fn current_set(&self) -> Set<u128> {
        self.current@
    }

    pub closed spec fn expiring_set(&self) -> Set<u128> {
        self.expiring@
    }

    /// Every nonce the cache would currently report as a replay.
    pub open spec fn seen(&self) -> Set<u128> {
        self.current_set().union(self.expiring_set())
    }

    pub closed spec fn spec_last_activity(&self) -> TimeSpan {
        self.last_activity
    }

    pub closed spec fn spec_last_rotation(&self) -> TimeSpan {
        self.last_rotation
    }

    pub closed spec fn spec_max_expiration(&self) -> TimeSpan {
        self.max_expiration
    }

    pub closed spec fn spec_policy(&self) -> RotationPolicy {
        self.policy
    }

    /// Whether a call at `now` retires a generation first.
    pub open spec fn rotation_due(&self, now: TimeSpan) -> bool {
        let since = match self.spec_policy() {
            RotationPolicy::GapSinceLastCall => self.spec_last_activity(),
            RotationPolicy::FixedCadence => self.spec_last_rotation(),
        };
        now@ - since@ > self.spec_max_expiration()@
    }

    /// The generation that is carried as `expiring` by a call at `now`.
    pub open spec fn carried_after(&self, now: TimeSpan) -> Set<u128> {
        if self.rotation_due(now) {
            self.current_set()
        } else {
            self.expiring_set()
        }
    }

    /// The `current` generation as a call at `now` finds it, after any rotation.
    pub open spec fn current_after(&self, now: TimeSpan) -> Set<u128> {
        if self.rotation_due(now) {
            Set::empty()
        } else {
            self.current_set()
        }
    }

    /// Whether a call at `now` accepts `val` as novel.
    pub open spec fn accepts(&self, val: u128, now: TimeSpan) -> bool {
        !(self.current_after(now).contains(val) || self.carried_after(now).contains(val))
    }

    /// Whether `after` is what a call at `now` recording `val` leaves of `self`.
    pub open spec fn recorded(&self, after: &ExpiringNonceCache, val: u128, now: TimeSpan) -> bool {
        &&& after.current_set() == self.current_after(now).insert(val)
        &&& after.expiring_set() == self.carried_after(now)
        &&& after.spec_last_activity() == now
        &&& after.spec_last_rotation() == (if self.rotation_due(now) { now } else { self.spec_last_rotation() })
        &&& after.spec_max_expiration() == self.spec_max_expiration()
        &&& after.spec_policy() == self.spec_policy()
    }

    /// An empty cache whose generations span `max_expiration`, started at `now`.
    pub fn new(max_expiration: TimeSpan, now: TimeSpan, policy: RotationPolicy) -> (r: ExpiringNonceCache)
        ensures
            r.current_set() == Set::<u128>::empty(),
            r.expiring_set() == Set::<u128>::empty(),
            r.spec_last_activity() == now,
            r.spec_last_rotation() == now,
            r.spec_max_expiration() == max_expiration,
            r.spec_policy() == policy,
    {
        ExpiringNonceCache {
            expiring: HashSet::new(),
            current: HashSet::new(),
            last_activity: now,
            last_rotation: now,
            max_expiration,
            policy,
        }
    }

    /// The window length the cache was built with.
    pub fn max_expiration(&self) -> (r: TimeSpan)
        ensures
            r == self.spec_max_expiration(),
    {
        self.max_expiration
    }

    /// The number of nonces held in both generations together, saturated at
    /// `usize::MAX`.
    pub fn total_len(&self) -> (r: usize)
        ensures
            r == (if self.current_set().len() + self.expiring_set().len() > usize::MAX {
                usize::MAX as int
            } else {
                (self.current_set().len() + self.expiring_set().len()) as int
            }),
    {
        let a = self.current.len();
        let b = self.expiring.len();
        if a > usize::MAX - b {
            usize::MAX
        } else {
            a + b
        }
    }

    /// Whether `val` is held in either generation.
    pub fn contains(&self, val: u128) -> (r: bool)
        ensures
            r == self.seen().contains(val),
    {
        self.current.contains(&val) || self.expiring.contains(&val)
    }

    /// Retires the `expiring` generation and makes `current` the new `expiring`.
    fn rotate(&mut self)
        ensures
            final(self).current_set() == Set::<u128>::empty(),
            final(self).expiring_set() == old(self).current_set(),
            final(self).last_activity == old(self).last_activity,
            final(self).last_rotation == old(self).last_rotation,
            final(self).max_expiration == old(self).max_expiration,
            final(self).policy == old(self).policy,
    {
        let avg_len = self.expiring.len() / 2 + self.current.len() / 2;
        self.expiring = HashSet::with_capacity(avg_len);
        std::mem::swap(&mut self.expiring, &mut self.current);
    }

    /// Records `val` at time `now`; returns `true` when it is novel and
    /// `false` when it is a replay of a nonce held in either generation.
    ///
    /// A rotation is made first when the policy says one is due. The nonce is
    /// then recorded in `current` either way, so a replayed nonce stays
    /// remembered for a full further generation.
    pub fn insert(&mut self, val: u128, now: TimeSpan) -> (r: bool)
        ensures
            r == old(self).accepts(val, now),
            old(self).recorded(final(self), val, now),
    {
        let n = now.as_nanos();
        let since = match self.policy {
            RotationPolicy::GapSinceLastCall => self.last_activity.as_nanos(),
            RotationPolicy::FixedCadence => self.last_rotation.as_nanos(),
        };
        let window = self.max_expiration.as_nanos();
        if n > since && n - since > window {
            self.rotate();
            self.last_rotation = now;
        }
        self.last_activity = now;

        let in_expiring = self.expiring.contains(&val);
        let novel = self.current.insert(val);
        novel && !in_expiring
    }
}

/// A nonce that the cache holds in neither generation is accepted.
pub proof fn lemma_novel_nonce_accepted(c: &ExpiringNonceCache, val: u128, now: TimeSpan)
    requires
        !c.seen().contains(val),
    ensures
        c.accepts(val, now),
{
}

/// A nonce recorded in the `current` generation is refused by the next call,
/// whether or not that call rotates the generations first.
pub proof fn lemma_recorded_nonce_refused(c: &ExpiringNonceCache, val: u128, now: TimeSpan)
    requires
        c.current_set().contains(val),
    ensures
        !c.accepts(val, now),
{
}

/// Once a call has recorded a nonce, the next call refuses it, whether the
/// gap between them rotates the generations or not.
pub proof fn lemma_replay_after_record_refused(
    before: &ExpiringNonceCache,
    after: &ExpiringNonceCache,
    val: u128,
    first: TimeSpan,
    second: TimeSpan,
)
    requires
        before.recorded(after, val, first),
    ensures
        !after.accepts(val, second),
{
    assert(after.current_set().contains(val));
}

/// A nonce held only in the `expiring` generation is refused unless the call
/// rotates first, which drops that generation.
pub proof fn lemma_expiring_nonce_until_rotation(c: &ExpiringNonceCache, val: u128, now: TimeSpan)
    requires
        c.expiring_set().contains(val),
        !c.current_set().contains(val),
    ensures
        c.accepts(val, now) == c.rotation_due(now),
{
}

} // verus!
