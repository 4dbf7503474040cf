//! Durable-store model for in-flight device-login attempts.
//!
//! The store keeps at most one active attempt per source IP and never reuses
//! an attempt identifier; both facts are part of its well-formedness
//! predicate, which every mutating operation preserves.

use vstd::prelude::*;

verus! {

/// One in-flight device-login attempt, as the store keeps it.
///
/// The `device_code` is the upstream polling secret; it is stored here and
/// handed only to the polling transport, never to the end client.
pub struct LoginAttempt {
    pub id: u64,
    pub source_ip: u32,
    pub device_code: String,
    pub interval: i32,
    pub expires_in: i32,
    pub created_at: i64,
}

/// Mathematical image of a stored attempt.
pub ghost struct AttemptModel {
    pub id: int,
    pub source_ip: u32,
    pub device_code: Seq<char>,
    pub interval: int,
    pub expires_in: int,
    pub created_at: int,
}

impl View for LoginAttempt {
    type V = AttemptModel;

    open spec fn view(&self) -> AttemptModel {
        AttemptModel {
            id: self.id as int,
            source_ip: self.source_ip,
            device_code: self.device_code@,
            interval: self.interval as int,
            expires_in: self.expires_in as int,
            created_at: self.created_at as int,
        }
    }
}

/// Mathematical image of the whole store.
pub ghost struct StoreModel {
    pub attempts: Seq<AttemptModel>,
    pub next_id: int,
}

/// Some active attempt uses this source IP.
pub open spec fn has_ip(s: Seq<AttemptModel>, ip: u32) -> bool {
    exists|i: int| 0 <= i < s.len() && s[i].source_ip == ip
}

/// Some active attempt carries this identifier.
pub open spec fn has_id(s: Seq<AttemptModel>, id: int) -> bool {
    exists|i: int| 0 <= i < s.len() && s[i].id == id
}

/// Index of the attempt with this identifier; meaningful only under
/// `has_id`, and pinned by id uniqueness.
pub open spec fn idx_of_id(s: Seq<AttemptModel>, id: int) -> int {
    choose|i: int| 0 <= i < s.len() && s[i].id == id
}

/// Store well-formedness: identifiers are unique and below `next_id` (so
/// they are never reused), and at most one active attempt exists per source
/// IP (the single-flight invariant).
pub open spec fn wf_model(m: StoreModel) -> bool {
    &&& forall|i: int, j: int|
        0 <= i < j < m.attempts.len() ==> m.attempts[i].id != m.attempts[j].id
    &&& forall|i: int, j: int|
        0 <= i < j < m.attempts.len() ==> m.attempts[i].source_ip != m.attempts[j].source_ip
    &&& forall|i: int| 0 <= i < m.attempts.len() ==> m.attempts[i].id < m.next_id
    &&& 0 <= m.next_id <= u64::MAX
}

/// Removing any attempt keeps the store well formed.
pub proof fn lemma_remove_preserves_wf(m: StoreModel, k: int)
    requires
        wf_model(m),
        0 <= k < m.attempts.len(),
    ensures
        wf_model(StoreModel { attempts: m.attempts.remove(k), next_id: m.next_id }),
{
    let s = m.attempts.remove(k);
    assert forall|i: int, j: int| 0 <= i < j < s.len() implies s[i].id != s[j].id
        && s[i].source_ip != s[j].source_ip by {
        let i0 = if i < k { i } else { i + 1 };
        let j0 = if j < k { j } else { j + 1 };
        assert(s[i] == m.attempts[i0]);
        assert(s[j] == m.attempts[j0]);
    }
    assert forall|i: int| 0 <= i < s.len() implies s[i].id < m.next_id by {
        let i0 = if i < k { i } else { i + 1 };
        assert(s[i] == m.attempts[i0]);
    }
}

/// The attempt store: lookup by source IP, atomic check-and-insert keyed by
/// IP, lookup by identifier, and delete by identifier.
pub struct AttemptStore {
    attempts: Vec<LoginAttempt>,
    next_id: u64,
}

impl View for AttemptStore {
    type V = StoreModel;

    closed spec fn view(&self) -> StoreModel {
        StoreModel {
            attempts: self.attempts@.map(|i: int, a: LoginAttempt| a@),
            next_id: self.next_id as int,
        }
    }
}

impl AttemptStore {
    pub open spec fn wf(&self) -> bool {
        wf_model(self@)
    }

    pub fn new() -> (r: AttemptStore)
        ensures
            r.wf(),
            r@.attempts.len() == 0,
            r@.next_id == 0,
    {
        AttemptStore { attempts: Vec::new(), next_id: 0 }
    }

    /// The identifier the next created attempt will get.
    pub fn next_attempt_id(&self) -> (r: u64)
        ensures
            r == self@.next_id,
    {
        self.next_id
    }

    /// Whether an active attempt exists for this source IP.
    pub fn contains_ip(&self, ip: u32) -> (r: bool)
        ensures
            r == has_ip(self@.attempts, ip),
    {
        let n = self.attempts.len();
        let mut i: usize = 0;
        while i < n
            invariant
                n == self.attempts.len(),
                i <= n,
                forall|j: int| 0 <= j < i ==> self@.attempts[j].source_ip != ip,
            decreases n - i,
        {
            if self.attempts[i].source_ip == ip {
                assert(self@.attempts[i as int].source_ip == ip);
                return true;
            }
            i += 1;
        }
        false
    }

    fn find_index(&self, id: u64) -> (r: Option<usize>)
        ensures
            match r {
                Some(i) => i < self@.attempts.len() && self@.attempts[i as int].id == id,
                None => !has_id(self@.attempts, id as int),
            },
    {
        let n = self.attempts.len();
        let mut i: usize = 0;
        while i < n
            invariant
                n == self.attempts.len(),
                i <= n,
                forall|j: int| 0 <= j < i ==> self@.attempts[j].id != id,
            decreases n - i,
        {
            if self.attempts[i].id == id {
                return Some(i);
            }
            i += 1;
        }
        None
    }

    /// Inserts a new attempt for `ip`. The caller has ruled out an active
    /// attempt for this IP; together with the exclusion check in
    /// `flow::start` this is the store-side half of check-and-insert.
    pub fn create(
        &mut self,
        ip: u32,
        device_code: String,
        interval: i32,
        expires_in: i32,
        created_at: i64,
    ) -> (r: u64)
        requires
            old(self).wf(),
            !has_ip(old(self)@.attempts, ip),
            old(self)@.next_id < u64::MAX,
        ensures
            final(self).wf(),
            r == old(self)@.next_id,
            final(self)@.next_id == old(self)@.next_id + 1,
            final(self)@.attempts == old(self)@.attempts.push(
                AttemptModel {
                    id: old(self)@.next_id,
                    source_ip: ip,
                    device_code: device_code@,
                    interval: interval as int,
                    expires_in: expires_in as int,
                    created_at: created_at as int,
                },
            ),
    {
        let id = self.next_id;
        let ghost old_model = self@;
        self.attempts.push(LoginAttempt { id, source_ip: ip, device_code, interval, expires_in, created_at });
        self.next_id = id + 1;
        proof {
            let pushed = old_model.attempts.push(
                AttemptModel {
                    id: old_model.next_id,
                    source_ip: ip,
                    device_code: self.attempts@.last().device_code@,
                    interval: interval as int,
                    expires_in: expires_in as int,
                    created_at: created_at as int,
                },
            );
            assert(self@.attempts =~= pushed);
            assert forall|i: int, j: int| 0 <= i < j < self@.attempts.len()
                implies self@.attempts[i].id != self@.attempts[j].id by {
                if j == old_model.attempts.len() {
                    assert(old_model.attempts[i].id < old_model.next_id);
                }
            }
            assert forall|i: int, j: int| 0 <= i < j < self@.attempts.len()
                implies self@.attempts[i].source_ip != self@.attempts[j].source_ip by {
                if j == old_model.attempts.len() {
                    if self@.attempts[i].source_ip == ip {
                        assert(has_ip(old_model.attempts, ip));
                    }
                }
            }
        }
        id
    }

    /// Looks an attempt up by identifier; the result is a copy of the stored
    /// row.
    pub fn get_by_id(&self, id: u64) -> (r: Option<LoginAttempt>)
        requires
            self.wf(),
        ensures
            match r {
                Some(a) => has_id(self@.attempts, id as int)
                    && a@ == self@.attempts[idx_of_id(self@.attempts, id as int)],
                None => !has_id(self@.attempts, id as int),
            },
    {
        match self.find_index(id) {
            Some(i) => {
                let a = &self.attempts[i];
                let copy = LoginAttempt {
                    id: a.id,
                    source_ip: a.source_ip,
                    device_code: a.device_code.clone(),
                    interval: a.interval,
                    expires_in: a.expires_in,
                    created_at: a.created_at,
                };
                proof {
                    let k = idx_of_id(self@.attempts, id as int);
                    assert(has_id(self@.attempts, id as int));
                    if k != i as int {
                        assert(self@.attempts[k].id == self@.attempts[i as int].id);
                        assert(false);
                    }
                }
                Some(copy)
            },
            None => None,
        }
    }

    /// Deletes the attempt with this identifier, if present; reports whether
    /// one was.
    pub fn delete_by_id(&mut self, id: u64) -> (r: bool)
        requires
            old(self).wf(),
        ensures
            final(self).wf(),
            r == has_id(old(self)@.attempts, id as int),
            final(self)@.next_id == old(self)@.next_id,
            r ==> final(self)@.attempts
                == old(self)@.attempts.remove(idx_of_id(old(self)@.attempts, id as int)),
            !r ==> final(self)@ == old(self)@,
    {
        let ghost old_model = self@;
        match self.find_index(id) {
            Some(i) => {
                self.attempts.remove(i);
                proof {
                    assert(has_id(old_model.attempts, id as int));
                    let k = idx_of_id(old_model.attempts, id as int);
                    if k != i as int {
                        assert(old_model.attempts[k].id == old_model.attempts[i as int].id);
                        assert(false);
                    }
                    assert(self@.attempts =~= old_model.attempts.remove(i as int));
                    lemma_remove_preserves_wf(old_model, i as int);
                }
                true
            },
            None => false,
        }
    }
}

} // verus!
