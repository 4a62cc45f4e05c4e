use vstd::prelude::*;

use crate::client::{
    spec_accepts_status, spec_is_success_status, spec_on_event, spec_start_authenticate,
    spec_start_logout, spec_start_request, PhaseV, RespV, StateV, StepV, VerbV,
};
use crate::error::ErrorV;
use crate::text::trim_seq;

verus! {

// ---------------------------------------------------------------------------
// Whole-call runs of the dispatcher, at the spec level
// ---------------------------------------------------------------------------

/// The record of one operation run to completion: the state it left behind,
/// its outcome, and how many requests of each kind went over the wire.
pub ghost struct CallRun {
    pub end: StateV,
    pub outcome: Result<Seq<char>, ErrorV>,
    /// Authentication requests sent to the transport during the run.
    pub auth_exchanges: nat,
    /// Business (or logout) requests sent to the transport during the run.
    pub other_exchanges: nat,
}

/// The result a finishing step carries.
pub open spec fn spec_step_result(step: StepV) -> Result<Seq<char>, ErrorV> {
    match step {
        StepV::Done(r) => r,
        StepV::Send(_) => Err(ErrorV::Api(Seq::empty())),
    }
}

/// One business call run to completion: begun with `start_request` under
/// the permit, fed the authentication outcome first where one was needed,
/// then the business outcome.
pub open spec fn spec_run_call(
    s: StateV,
    q: VerbV,
    auth_ev: Result<RespV, Seq<char>>,
    biz_ev: Result<RespV, Seq<char>>,
) -> CallRun
    recommends
        s.phase is Idle,
{
    let s1 = spec_start_request(s, q).0;
    if s.session is Some {
        let (s2, step) = spec_on_event(s1, biz_ev);
        CallRun {
            end: s2,
            outcome: spec_step_result(step),
            auth_exchanges: 0,
            other_exchanges: 1,
        }
    } else {
        let (s2, step) = spec_on_event(s1, auth_ev);
        match step {
            StepV::Done(r) => CallRun {
                end: s2,
                outcome: r,
                auth_exchanges: 1,
                other_exchanges: 0,
            },
            StepV::Send(_) => {
                let (s3, step2) = spec_on_event(s2, biz_ev);
                CallRun {
                    end: s3,
                    outcome: spec_step_result(step2),
                    auth_exchanges: 1,
                    other_exchanges: 1,
                }
            },
        }
    }
}

/// One logout run to completion: begun with `start_logout` under the
/// permit, fed the authentication outcome first where one was needed, then
/// the logout outcome.
pub open spec fn spec_run_logout(
    s: StateV,
    auth_ev: Result<RespV, Seq<char>>,
    logout_ev: Result<RespV, Seq<char>>,
) -> CallRun
    recommends
        s.phase is Idle,
{
    let s1 = spec_start_logout(s).0;
    if s.session is Some {
        let (s2, step) = spec_on_event(s1, logout_ev);
        CallRun {
            end: s2,
            outcome: spec_step_result(step),
            auth_exchanges: 0,
            other_exchanges: 1,
        }
    } else {
        let (s2, step) = spec_on_event(s1, auth_ev);
        match step {
            StepV::Done(r) => CallRun {
                end: s2,
                outcome: r,
                auth_exchanges: 1,
                other_exchanges: 0,
            },
            StepV::Send(_) => {
                let (s3, step2) = spec_on_event(s2, logout_ev);
                CallRun {
                    end: s3,
                    outcome: spec_step_result(step2),
                    auth_exchanges: 1,
                    other_exchanges: 1,
                }
            },
        }
    }
}

// ---------------------------------------------------------------------------
// Laws of the dispatcher
// ---------------------------------------------------------------------------

/// Serialization invariant. A request is issued only from the idle phase
/// (the `requires` of every `start_` operation), every issued request
/// leaves the dispatcher in a non-idle phase, and feeding an outcome back
/// reaches the idle phase exactly when the operation finishes. So between
/// issuing a request and receiving its outcome no second request can be
/// started: the transport never sees two in-flight requests of one
/// dispatcher.
pub proof fn lemma_single_request_in_flight(
    s: StateV,
    q: VerbV,
    ev: Result<RespV, Seq<char>>,
)
    ensures
        s.phase is Idle ==> !(spec_start_request(s, q).0.phase is Idle),
        s.phase is Idle && spec_start_authenticate(s).1 is Send ==> !(
        spec_start_authenticate(s).0.phase is Idle),
        s.phase is Idle && spec_start_authenticate(s).1 is Done ==> spec_start_authenticate(
            s,
        ).0.phase is Idle,
        s.phase is Idle ==> !(spec_start_logout(s).0.phase is Idle),
        !(s.phase is Idle) ==> ((spec_on_event(s, ev).0.phase is Idle) <==> (spec_on_event(
            s,
            ev,
        ).1 is Done)),
{
}

/// The permit is released on every exit path: whatever the transport
/// outcome, a business call run to completion ends in the idle phase, with
/// an outcome in place of a further request.
pub proof fn lemma_permit_released(
    s: StateV,
    q: VerbV,
    auth_ev: Result<RespV, Seq<char>>,
    biz_ev: Result<RespV, Seq<char>>,
)
    requires
        s.phase is Idle,
    ensures
        spec_run_call(s, q, auth_ev, biz_ev).end.phase is Idle,
        spec_run_logout(s, auth_ev, biz_ev).end.phase is Idle,
{
}

/// Session reuse. From a fresh dispatcher, two consecutive successful
/// business calls perform exactly one authentication exchange between
/// them: the first call authenticates and caches the trimmed token, the
/// second sends its business request at once with the same token attached,
/// and the token is unchanged throughout.
pub proof fn lemma_session_reuse(
    s: StateV,
    q1: VerbV,
    q2: VerbV,
    auth_resp: RespV,
    resp1: RespV,
    resp2: RespV,
)
    requires
        s.phase is Idle,
        s.session is None,
        spec_is_success_status(auth_resp.status),
        trim_seq(auth_resp.body).len() > 0,
        spec_accepts_status(q1.method, resp1.status),
        spec_accepts_status(q2.method, resp2.status),
    ensures
        ({
            let token = trim_seq(auth_resp.body);
            let run1 = spec_run_call(s, q1, Ok(auth_resp), Ok(resp1));
            let run2 = spec_run_call(run1.end, q2, Ok(auth_resp), Ok(resp2));
            &&& run1.outcome == Ok::<Seq<char>, ErrorV>(resp1.body)
            &&& run2.outcome == Ok::<Seq<char>, ErrorV>(resp2.body)
            &&& run1.auth_exchanges + run2.auth_exchanges == 1
            &&& run1.end.session == Some(token)
            &&& run2.end.session == Some(token)
            &&& spec_start_request(run1.end, q2).1.query == seq![("key"@, token)] + q2.params
        }),
{
}

/// Re-authentication after logout. A successful logout clears the cached
/// token, and the next successful business call performs exactly one new
/// authentication exchange.
pub proof fn lemma_reauth_after_logout(
    s: StateV,
    logout_resp: RespV,
    q: VerbV,
    auth_resp: RespV,
    biz_resp: RespV,
)
    requires
        s.phase is Idle,
        s.session is Some,
        spec_is_success_status(logout_resp.status),
        spec_is_success_status(auth_resp.status),
        trim_seq(auth_resp.body).len() > 0,
        spec_accepts_status(q.method, biz_resp.status),
    ensures
        ({
            let out = spec_run_logout(s, Ok(auth_resp), Ok(logout_resp));
            let next = spec_run_call(out.end, q, Ok(auth_resp), Ok(biz_resp));
            &&& out.outcome == Ok::<Seq<char>, ErrorV>(trim_seq(logout_resp.body))
            &&& out.auth_exchanges == 0
            &&& out.end.session is None
            &&& next.auth_exchanges == 1
            &&& next.outcome == Ok::<Seq<char>, ErrorV>(biz_resp.body)
        }),
{
}

/// Authentication failure short-circuits. When the authentication exchange
/// returns a non-success status, the pending business request is never
/// sent, the call fails with an authentication error carrying the server's
/// text, no token is cached, and the permit is released.
pub proof fn lemma_auth_failure_short_circuit(
    s: StateV,
    q: VerbV,
    auth_resp: RespV,
    biz_ev: Result<RespV, Seq<char>>,
)
    requires
        s.phase is Idle,
        s.session is None,
        !spec_is_success_status(auth_resp.status),
    ensures
        ({
            let run = spec_run_call(s, q, Ok(auth_resp), biz_ev);
            &&& run.other_exchanges == 0
            &&& run.outcome == Err::<Seq<char>, ErrorV>(ErrorV::Authentication(auth_resp.body))
            &&& run.end.session is None
            &&& run.end.phase is Idle
        }),
{
}

} // verus!
