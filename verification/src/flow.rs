//! Attempt-lifecycle controller: the state machine that `start` and `poll`
//! drive for each source IP.
//!
//! Per IP an attempt moves from absent to pending, and from pending to one
//! of the terminal outcomes (a token, expiry, denial); a terminal outcome
//! deletes the stored attempt, so the IP is free again. The transitions are
//! stated once as spec functions over the store model; the executable
//! controller is proved to follow them, and the flow laws are proved about
//! them.

use vstd::prelude::*;

use crate::github::GithubStartAuth;
use crate::github::PayloadModel;
use crate::github::PollPayload;
use crate::github::StartAuthModel;
use crate::github::opt_start_model;
use crate::github::parse_poll_payload;
use crate::github::parse_start_auth;
use crate::github::poll_payload_of;
use crate::github::start_auth_of;
use crate::store::AttemptModel;
use crate::store::AttemptStore;
use crate::store::StoreModel;
use crate::store::has_id;
use crate::store::has_ip;
use crate::store::idx_of_id;
use crate::store::lemma_remove_preserves_wf;
use crate::store::wf_model;

verus! {

/// Why `start` can fail: another attempt is active for the same IP, or the
/// upstream exchange did not produce a usable answer.
#[derive(Clone, Copy, Debug, PartialEq, Eq, Structural)]
pub enum StartError {
    Conflict,
    UpstreamUnavailable,
}

/// What the caller gets back from a successful `start`. The upstream device
/// code is deliberately not part of this shape: it stays in the store.
#[derive(Debug)]
pub struct DeviceAuthResponse {
    pub attempt_id: u64,
    pub poll_interval_seconds: i32,
    pub verification_uri: String,
    pub user_code: String,
}

/// Mathematical image of `DeviceAuthResponse`.
pub ghost struct RespModel {
    pub attempt_id: int,
    pub poll_interval_seconds: int,
    pub verification_uri: Seq<char>,
    pub user_code: Seq<char>,
}

impl View for DeviceAuthResponse {
    type V = RespModel;

    open spec fn view(&self) -> RespModel {
        RespModel {
            attempt_id: self.attempt_id as int,
            poll_interval_seconds: self.poll_interval_seconds as int,
            verification_uri: self.verification_uri@,
            user_code: self.user_code@,
        }
    }
}

pub open spec fn resp_view(r: Result<DeviceAuthResponse, StartError>) -> Result<
    RespModel,
    StartError,
> {
    match r {
        Ok(d) => Ok(d@),
        Err(e) => Err(e),
    }
}

/// Outcome of one poll, as handed to the caller.
#[derive(Debug, PartialEq, Eq)]
pub enum PollOutcome {
    Pending { interval: i32 },
    Success { token: String },
    Expired,
    Denied,
    NotFound,
    UpstreamUnavailable,
}

/// Mathematical image of `PollOutcome`.
pub ghost enum PollStep {
    Pending { interval: int },
    Success { token: Seq<char> },
    Expired,
    Denied,
    NotFound,
    UpstreamUnavailable,
}

impl View for PollOutcome {
    type V = PollStep;

    open spec fn view(&self) -> PollStep {
        match self {
            PollOutcome::Pending { interval } => PollStep::Pending { interval: *interval as int },
            PollOutcome::Success { token } => PollStep::Success { token: token@ },
            PollOutcome::Expired => PollStep::Expired,
            PollOutcome::Denied => PollStep::Denied,
            PollOutcome::NotFound => PollStep::NotFound,
            PollOutcome::UpstreamUnavailable => PollStep::UpstreamUnavailable,
        }
    }
}

pub open spec fn opt_payload_model(o: Option<PollPayload>) -> Option<PayloadModel> {
    match o {
        Some(p) => Some(p@),
        None => None,
    }
}

/// The `start` transition: `Conflict` while an attempt is active for the
/// IP; `UpstreamUnavailable` when the upstream exchange failed; otherwise a
/// fresh attempt is stored under the next identifier and the caller-facing
/// response is produced.
pub open spec fn start_spec(
    m: StoreModel,
    ip: u32,
    upstream: Option<StartAuthModel>,
    now: int,
) -> (StoreModel, Result<RespModel, StartError>) {
    if has_ip(m.attempts, ip) {
        (m, Err(StartError::Conflict))
    } else {
        match upstream {
            None => (m, Err(StartError::UpstreamUnavailable)),
            Some(u) => (
                StoreModel {
                    attempts: m.attempts.push(
                        AttemptModel {
                            id: m.next_id,
                            source_ip: ip,
                            device_code: u.device_code,
                            interval: u.interval,
                            expires_in: u.expires_in,
                            created_at: now,
                        },
                    ),
                    next_id: m.next_id + 1,
                },
                Ok(
                    RespModel {
                        attempt_id: m.next_id,
                        poll_interval_seconds: u.interval,
                        verification_uri: u.verification_uri,
                        user_code: u.user_code,
                    },
                ),
            ),
        }
    }
}

/// An attempt's validity window has elapsed.
pub open spec fn expired_spec(a: AttemptModel, now: int) -> bool {
    a.created_at + a.expires_in < now
}

/// How one upstream polling payload is read: a token ends the flow with
/// success; `authorization_pending` and `slow_down` keep it open (the
/// latter with the upstream's new interval hint, or the stored interval
/// when the hint is absent); `expired_token` and `access_denied` end it;
/// anything else counts as the upstream being unusable. The first
/// component says whether the attempt is to be deleted.
pub open spec fn classify_spec(p: PayloadModel, stored_interval: int) -> (bool, PollStep) {
    match p.access_token {
        Some(t) => (true, PollStep::Success { token: t }),
        None => match p.error {
            Some(e) => {
                if e == "authorization_pending"@ {
                    (false, PollStep::Pending { interval: stored_interval })
                } else if e == "slow_down"@ {
                    (
                        false,
                        PollStep::Pending {
                            interval: match p.interval {
                                Some(n) => n,
                                None => stored_interval,
                            },
                        },
                    )
                } else if e == "expired_token"@ {
                    (true, PollStep::Expired)
                } else if e == "access_denied"@ {
                    (true, PollStep::Denied)
                } else {
                    (false, PollStep::UpstreamUnavailable)
                }
            },
            None => (false, PollStep::UpstreamUnavailable),
        },
    }
}

/// The `poll` transition: an unknown identifier is `NotFound`; an elapsed
/// attempt is deleted and reported `Expired`; otherwise the upstream
/// payload (or its absence, on a transport failure) decides, and a
/// terminal outcome deletes the attempt.
pub open spec fn poll_spec(
    m: StoreModel,
    id: int,
    now: int,
    upstream: Option<PayloadModel>,
) -> (StoreModel, PollStep) {
    if !has_id(m.attempts, id) {
        (m, PollStep::NotFound)
    } else {
        let k = idx_of_id(m.attempts, id);
        let a = m.attempts[k];
        if expired_spec(a, now) {
            (StoreModel { attempts: m.attempts.remove(k), next_id: m.next_id }, PollStep::Expired)
        } else {
            match upstream {
                None => (m, PollStep::UpstreamUnavailable),
                Some(p) => {
                    let (del, step) = classify_spec(p, a.interval);
                    (
                        if del {
                            StoreModel { attempts: m.attempts.remove(k), next_id: m.next_id }
                        } else {
                            m
                        },
                        step,
                    )
                },
            }
        }
    }
}

fn str_is(s: &String, lit: &str) -> (r: bool)
    ensures
        r == (s@ == lit@),
{
    let owned: String = lit.to_owned();
    s.eq(&owned)
}

/// Decides whether an attempt's validity window has elapsed at `now`.
pub fn is_expired(created_at: i64, expires_in: i32, now: i64) -> (r: bool)
    ensures
        r == (created_at + expires_in < now),
{
    (created_at as i128) + (expires_in as i128) < (now as i128)
}

/// Reads one upstream polling payload; returns whether the attempt is to
/// be deleted, and the caller-facing outcome.
pub fn classify(p: &PollPayload, stored_interval: i32) -> (r: (bool, PollOutcome))
    ensures
        (r.0, r.1@) == classify_spec(p@, stored_interval as int),
{
    match &p.access_token {
        Some(t) => (true, PollOutcome::Success { token: t.clone() }),
        None => match &p.error {
            Some(e) => {
                if str_is(e, "authorization_pending") {
                    (false, PollOutcome::Pending { interval: stored_interval })
                } else if str_is(e, "slow_down") {
                    let interval = match p.interval {
                        Some(n) => n,
                        None => stored_interval,
                    };
                    (false, PollOutcome::Pending { interval })
                } else if str_is(e, "expired_token") {
                    (true, PollOutcome::Expired)
                } else if str_is(e, "access_denied") {
                    (true, PollOutcome::Denied)
                } else {
                    (false, PollOutcome::UpstreamUnavailable)
                }
            },
            None => (false, PollOutcome::UpstreamUnavailable),
        },
    }
}

/// Starts a login attempt for `ip`, given the outcome the upstream
/// exchange produced (`None` when transport failed or the answer was not
/// usable). The check against an active attempt and the insert happen
/// against the same store state: the check-and-insert is atomic here.
pub fn start(
    store: &mut AttemptStore,
    ip: u32,
    upstream: Option<GithubStartAuth>,
    now: i64,
) -> (r: Result<DeviceAuthResponse, StartError>)
    requires
        old(store).wf(),
        old(store)@.next_id < u64::MAX,
    ensures
        final(store).wf(),
        ({
            let (m2, res) = start_spec(old(store)@, ip, opt_start_model(upstream), now as int);
            final(store)@ == m2 && resp_view(r) == res
        }),
{
    if store.contains_ip(ip) {
        return Err(StartError::Conflict);
    }
    match upstream {
        None => Err(StartError::UpstreamUnavailable),
        Some(u) => {
            let GithubStartAuth { device_code, user_code, verification_uri, expires_in, interval } = u;
            let id = store.create(ip, device_code, interval, expires_in, now);
            Ok(
                DeviceAuthResponse {
                    attempt_id: id,
                    poll_interval_seconds: interval,
                    verification_uri,
                    user_code,
                },
            )
        },
    }
}

/// What `poll_lookup` finds before anything is asked of the upstream.
#[derive(Debug)]
pub enum PollLookup {
    NotFound,
    Expired,
    Active { device_code: String, interval: i32 },
}

/// First half of a poll: loads the attempt, deletes and reports it when its
/// window has elapsed, and otherwise hands out the device code the
/// transport must poll with.
pub fn poll_lookup(store: &mut AttemptStore, attempt_id: u64, now: i64) -> (r: PollLookup)
    requires
        old(store).wf(),
    ensures
        final(store).wf(),
        !has_id(old(store)@.attempts, attempt_id as int) ==> (r is NotFound && final(store)@
            == old(store)@),
        ({
            let k = idx_of_id(old(store)@.attempts, attempt_id as int);
            let a = old(store)@.attempts[k];
            &&& (has_id(old(store)@.attempts, attempt_id as int) && expired_spec(a, now as int))
                ==> (r is Expired && final(store)@.attempts == old(store)@.attempts.remove(k)
                && final(store)@.next_id == old(store)@.next_id)
            &&& (has_id(old(store)@.attempts, attempt_id as int) && !expired_spec(a, now as int))
                ==> ((r matches PollLookup::Active { device_code, interval } && device_code@
                == a.device_code && interval as int == a.interval) && final(store)@ == old(
                store,
            )@)
        }),
{
    match store.get_by_id(attempt_id) {
        None => PollLookup::NotFound,
        Some(a) => {
            if is_expired(a.created_at, a.expires_in, now) {
                store.delete_by_id(attempt_id);
                PollLookup::Expired
            } else {
                PollLookup::Active { device_code: a.device_code, interval: a.interval }
            }
        },
    }
}

/// Polls a login attempt, given the payload the upstream answered with
/// (`None` when transport failed or the body was not JSON). Terminal
/// outcomes delete the attempt; pending ones leave the store exactly as it
/// was.
pub fn poll(
    store: &mut AttemptStore,
    attempt_id: u64,
    now: i64,
    upstream: Option<PollPayload>,
) -> (r: PollOutcome)
    requires
        old(store).wf(),
    ensures
        final(store).wf(),
        ({
            let (m2, step) = poll_spec(
                old(store)@,
                attempt_id as int,
                now as int,
                opt_payload_model(upstream),
            );
            final(store)@ == m2 && r@ == step
        }),
{
    match store.get_by_id(attempt_id) {
        None => PollOutcome::NotFound,
        Some(a) => {
            if is_expired(a.created_at, a.expires_in, now) {
                store.delete_by_id(attempt_id);
                PollOutcome::Expired
            } else {
                match upstream {
                    None => PollOutcome::UpstreamUnavailable,
                    Some(p) => {
                        let (del, outcome) = classify(&p, a.interval);
                        if del {
                            store.delete_by_id(attempt_id);
                        }
                        outcome
                    },
                }
            }
        },
    }
}

pub open spec fn response_pair_view(r: Option<(u16, String)>) -> Option<(u16, Seq<char>)> {
    match r {
        None => None,
        Some((status, body)) => Some((status, body@)),
    }
}

/// What an issuance response amounts to: only HTTP 200 with a body of the
/// expected JSON shape is usable; everything else counts as the upstream
/// being unavailable.
pub open spec fn start_model_of_response(r: Option<(u16, Seq<char>)>) -> Option<StartAuthModel> {
    match r {
        None => None,
        Some((status, body)) => if status == 200 {
            start_auth_of(body)
        } else {
            None
        },
    }
}

/// Starts a login attempt from the raw issuance response: the HTTP status
/// and body as the transport received them, or `None` on a transport
/// failure.
pub fn start_from_response(
    store: &mut AttemptStore,
    ip: u32,
    response: Option<(u16, String)>,
    now: i64,
) -> (r: Result<DeviceAuthResponse, StartError>)
    requires
        old(store).wf(),
        old(store)@.next_id < u64::MAX,
    ensures
        final(store).wf(),
        ({
            let (m2, res) = start_spec(
                old(store)@,
                ip,
                start_model_of_response(response_pair_view(response)),
                now as int,
            );
            final(store)@ == m2 && resp_view(r) == res
        }),
{
    let upstream = match response {
        None => None,
        Some((status, body)) => {
            if status == 200 {
                parse_start_auth(body.as_str())
            } else {
                None
            }
        },
    };
    start(store, ip, upstream, now)
}

/// Polls a login attempt from the raw polling response body (`None` on a
/// transport failure); the upstream encodes the flow state in the body, so
/// the HTTP status plays no part.
pub fn poll_with_body(
    store: &mut AttemptStore,
    attempt_id: u64,
    now: i64,
    body: Option<&str>,
) -> (r: PollOutcome)
    requires
        old(store).wf(),
    ensures
        final(store).wf(),
        ({
            let up = match body {
                Some(b) => Some(poll_payload_of(b@)),
                None => None,
            };
            let (m2, step) = poll_spec(old(store)@, attempt_id as int, now as int, up);
            final(store)@ == m2 && r@ == step
        }),
{
    let upstream = match body {
        None => None,
        Some(b) => Some(parse_poll_payload(b)),
    };
    poll(store, attempt_id, now, upstream)
}

/// Law: a `start` transition keeps the store well formed.
pub proof fn lemma_start_preserves_wf(
    m: StoreModel,
    ip: u32,
    upstream: Option<StartAuthModel>,
    now: int,
)
    requires
        wf_model(m),
        m.next_id < u64::MAX,
    ensures
        wf_model(start_spec(m, ip, upstream, now).0),
{
    let m2 = start_spec(m, ip, upstream, now).0;
    if !has_ip(m.attempts, ip) && upstream is Some {
        assert forall|i: int, j: int| 0 <= i < j < m2.attempts.len() implies m2.attempts[i].id
            != m2.attempts[j].id by {
            if j == m.attempts.len() {
                assert(m.attempts[i].id < m.next_id);
            }
        }
        assert forall|i: int, j: int| 0 <= i < j < m2.attempts.len() implies
            m2.attempts[i].source_ip != m2.attempts[j].source_ip by {
            if j == m.attempts.len() {
                if m2.attempts[i].source_ip == ip {
                    assert(has_ip(m.attempts, ip));
                }
            }
        }
    }
}

/// Law: a `poll` transition keeps the store well formed.
pub proof fn lemma_poll_preserves_wf(
    m: StoreModel,
    id: int,
    now: int,
    upstream: Option<PayloadModel>,
)
    requires
        wf_model(m),
    ensures
        wf_model(poll_spec(m, id, now, upstream).0),
{
    if has_id(m.attempts, id) {
        let k = idx_of_id(m.attempts, id);
        assert(0 <= k < m.attempts.len());
        lemma_remove_preserves_wf(m, k);
    }
}

/// Law (single flight per IP): after a successful `start` for an IP, a
/// second `start` for the same IP yields `Conflict` and changes nothing,
/// however the upstream answers, until a terminal poll outcome has removed
/// the attempt.
pub proof fn lemma_start_single_flight(
    m: StoreModel,
    ip: u32,
    u1: Option<StartAuthModel>,
    now1: int,
    u2: Option<StartAuthModel>,
    now2: int,
)
    requires
        wf_model(m),
        (start_spec(m, ip, u1, now1).1 is Ok),
    ensures
        start_spec(start_spec(m, ip, u1, now1).0, ip, u2, now2).1 == Result::<
            RespModel,
            StartError,
        >::Err(StartError::Conflict),
        start_spec(start_spec(m, ip, u1, now1).0, ip, u2, now2).0 == start_spec(m, ip, u1, now1).0,
{
    let m1 = start_spec(m, ip, u1, now1).0;
    assert(m1.attempts[m.attempts.len() as int].source_ip == ip);
    assert(has_ip(m1.attempts, ip));
}

/// Law: polling an attempt whose validity window has elapsed yields
/// `Expired`, and the attempt is afterwards absent from the store.
pub proof fn lemma_poll_expired(m: StoreModel, id: int, now: int, upstream: Option<PayloadModel>)
    requires
        wf_model(m),
        has_id(m.attempts, id),
        expired_spec(m.attempts[idx_of_id(m.attempts, id)], now),
    ensures
        poll_spec(m, id, now, upstream).1 == PollStep::Expired,
        !has_id(poll_spec(m, id, now, upstream).0.attempts, id),
{
    let k = idx_of_id(m.attempts, id);
    let s2 = poll_spec(m, id, now, upstream).0.attempts;
    assert(s2 == m.attempts.remove(k));
    assert forall|i: int| 0 <= i < s2.len() implies s2[i].id != id by {
        let i0 = if i < k {
            i
        } else {
            i + 1
        };
        assert(s2[i] == m.attempts[i0]);
        if i0 < k {
            assert(m.attempts[i0].id != m.attempts[k].id);
        } else {
            assert(m.attempts[k].id != m.attempts[i0].id);
        }
    }
}

/// Law (idempotence while pending): while the upstream reports
/// `authorization_pending`, a poll leaves the store exactly as it was and
/// reports `Pending` with the stored interval; repeating the poll
/// therefore does the same again.
pub proof fn lemma_poll_pending_idempotent(m: StoreModel, id: int, now: int, p: PayloadModel)
    requires
        wf_model(m),
        has_id(m.attempts, id),
        !expired_spec(m.attempts[idx_of_id(m.attempts, id)], now),
        (p.access_token is None),
        p.error == Some("authorization_pending"@),
    ensures
        poll_spec(m, id, now, Some(p)).0 == m,
        poll_spec(m, id, now, Some(p)).1 == (PollStep::Pending {
            interval: m.attempts[idx_of_id(m.attempts, id)].interval,
        }),
        poll_spec(poll_spec(m, id, now, Some(p)).0, id, now, Some(p)) == poll_spec(
            m,
            id,
            now,
            Some(p),
        ),
{
}

/// Law (all or nothing): a `start` that fails leaves the store exactly as
/// it was, and so does a poll whose outcome is not terminal; no failure
/// path leaves a partial attempt record behind.
pub proof fn lemma_no_partial_state(
    m: StoreModel,
    ip: u32,
    su: Option<StartAuthModel>,
    pu: Option<PayloadModel>,
    id: int,
    now: int,
)
    ensures
        (start_spec(m, ip, su, now).1 is Err) ==> start_spec(m, ip, su, now).0 == m,
        ({
            let (m2, step) = poll_spec(m, id, now, pu);
            (step is Pending || step is NotFound || step is UpstreamUnavailable) ==> m2 == m
        }),
{
}

/// Law (round trip): a successful `start` followed by a poll within the
/// validity window whose upstream payload carries a token yields `Success`
/// with that token, and the attempt is gone — the store's attempts are
/// exactly what they were before the `start`.
pub proof fn lemma_start_then_poll_success(
    m: StoreModel,
    ip: u32,
    u: StartAuthModel,
    now1: int,
    now2: int,
    p: PayloadModel,
    token: Seq<char>,
)
    requires
        wf_model(m),
        !has_ip(m.attempts, ip),
        p.access_token == Some(token),
        now1 + u.expires_in >= now2,
    ensures
        (start_spec(m, ip, Some(u), now1).1 is Ok),
        ({
            let m1 = start_spec(m, ip, Some(u), now1).0;
            let (m2, step) = poll_spec(m1, m.next_id, now2, Some(p));
            step == PollStep::Success { token } && !has_id(m2.attempts, m.next_id) && m2.attempts
                == m.attempts
        }),
{
    let m1 = start_spec(m, ip, Some(u), now1).0;
    let len = m.attempts.len() as int;
    assert(m1.attempts[len].id == m.next_id);
    assert(has_id(m1.attempts, m.next_id));
    let k = idx_of_id(m1.attempts, m.next_id);
    assert(0 <= k < m1.attempts.len() && m1.attempts[k].id == m.next_id);
    if k != len {
        assert(m1.attempts[k] == m.attempts[k]);
        assert(m.attempts[k].id < m.next_id);
        assert(false);
    }
    assert(!expired_spec(m1.attempts[k], now2));
    assert(m1.attempts.remove(len) =~= m.attempts);
    let s2 = poll_spec(m1, m.next_id, now2, Some(p)).0.attempts;
    assert(s2 == m.attempts);
    assert forall|i: int| 0 <= i < s2.len() implies s2[i].id != m.next_id by {
        assert(m.attempts[i].id < m.next_id);
    }
}

} // verus!

