//! The dispatcher: one inbound event in, one ordered run of platform
//! calls out.
//!
//! Every inbound event arrives as one typed variant; untyped data never
//! reaches this layer.  For a presence update the dispatcher decides the
//! plan — which platform calls the update causes, in which order — and
//! drives the registry's sessions accordingly: a hidden update clears
//! before anything else from the same update is applied, an unknown
//! identity is connected first, and a hidden update for an unknown
//! identity causes no platform call at all.

use vstd::prelude::*;

use crate::activity::PlatformActivity;
use crate::activity::spec_translate;
use crate::activity::translate;
use crate::local_presence::LocalFiles;
use crate::rpc_client::ConnectError;
use crate::rpc_client::RpcClientModel;
use crate::rpc_client::SpecCall;
use crate::rpc_client::UpdateError;
use crate::rpc_client_manager::RpcClientManager;
use crate::rpc_client_manager::all_cleared;
use crate::rpc_client_manager::bump;
use crate::rpc_client_manager::contains_id;
use crate::rpc_client_manager::index_of_id;
use crate::settings::Settings;
use crate::types::DiscordUser;
use crate::types::Presence;
use crate::types::PresenceModel;

verus! {

/// One planned platform call for an update, as a value: what would be
/// sent, before any session is touched.
#[derive(Debug)]
pub enum PlannedCall {
    /// Open the session for the update's identity.
    Connect,
    /// Set this payload on the identity's session.
    SetActivity(PlatformActivity),
    /// Clear the identity's remote activity.
    Clear,
}

impl View for PlannedCall {
    type V = SpecCall;

    open spec fn view(&self) -> SpecCall {
        match self {
            PlannedCall::Connect => SpecCall::Connect,
            PlannedCall::SetActivity(a) => SpecCall::SetActivity(a@),
            PlannedCall::Clear => SpecCall::Clear,
        }
    }
}

/// The models of the planned calls, in order.
pub open spec fn plan_view(p: Seq<PlannedCall>) -> Seq<SpecCall> {
    Seq::new(p.len(), |i: int| p[i]@)
}

/// The calls one presence update causes for its identity, in order.
///
/// Hidden updates clear first and never connect: with no session there is
/// nothing to do, with a session the clear precedes a set that happens
/// only when the update carries activity fields.  An update that is not
/// hidden sets on the existing session, or connects first when none
/// exists.
pub open spec fn spec_plan(registered: bool, u: PresenceModel) -> Seq<SpecCall> {
    if u.hidden == Some(true) {
        if !registered {
            Seq::empty()
        } else if u.presence_data.has_activity_fields() {
            seq![SpecCall::Clear, SpecCall::SetActivity(spec_translate(u.presence_data))]
        } else {
            seq![SpecCall::Clear]
        }
    } else {
        if registered {
            seq![SpecCall::SetActivity(spec_translate(u.presence_data))]
        } else {
            seq![SpecCall::Connect, SpecCall::SetActivity(spec_translate(u.presence_data))]
        }
    }
}

/// Decides, without touching any session, which platform calls an update
/// causes, given whether its identity already has a session.
pub fn plan_set_activity(registered: bool, update: &Presence) -> (p: Vec<PlannedCall>)
    ensures
        plan_view(p@) == spec_plan(registered, update@),
{
    let mut p: Vec<PlannedCall> = Vec::new();
    let hidden = match update.hidden {
        Some(h) => h,
        None => false,
    };
    if hidden {
        if registered {
            p.push(PlannedCall::Clear);
            if update.presence_data.has_activity_fields() {
                p.push(PlannedCall::SetActivity(translate(&update.presence_data)));
            }
        }
    } else {
        if !registered {
            p.push(PlannedCall::Connect);
        }
        p.push(PlannedCall::SetActivity(translate(&update.presence_data)));
    }
    proof {
        assert(plan_view(p@) =~= spec_plan(registered, update@));
    }
    p
}

/// What handling one presence update came to.
#[derive(Debug)]
pub enum SetActivityOutcome {
    /// A hidden update for an identity with no session: nothing was sent.
    Ignored,
    /// The planned calls went to the existing session; any send failures
    /// are carried for logging, none is fatal.
    Relayed(Vec<UpdateError>),
    /// A session was connected and registered, and the activity set on
    /// it; a send failure of the set is carried for logging.
    Connected(Option<UpdateError>),
    /// The connect failed: the identity stays unregistered and the update
    /// is dropped; the next update for it may retry.
    ConnectFailed(ConnectError),
}

/// How the registry and the outcome of [`on_set_activity`] relate to the
/// registry before the update: the calls of [`spec_plan`] reach the
/// update's session, in plan order, and nothing else changes.
pub open spec fn set_activity_post(
    m0: Seq<RpcClientModel>,
    m1: Seq<RpcClientModel>,
    u: PresenceModel,
    r: SetActivityOutcome,
) -> bool {
    let registered = contains_id(m0, u.client_id);
    let plan = spec_plan(registered, u);
    if u.hidden == Some(true) {
        if registered {
            r matches SetActivityOutcome::Relayed(_)
                && m1 == bump(m0, index_of_id(m0, u.client_id), plan)
        } else {
            r matches SetActivityOutcome::Ignored && m1 == m0
        }
    } else {
        if registered {
            r matches SetActivityOutcome::Relayed(_)
                && m1 == bump(m0, index_of_id(m0, u.client_id), plan)
        } else {
            match r {
                SetActivityOutcome::Connected(_) => m1.len() == m0.len() + 1
                    && m1.drop_last() == m0
                    && m1.last().client_id == u.client_id
                    && m1.last().calls == plan,
                SetActivityOutcome::ConnectFailed(_) => m1 == m0,
                _ => false,
            }
        }
    }
}

/// Relays one presence update to its identity's session, creating the
/// session first when the update is not hidden and none exists.  The
/// calls of [`spec_plan`] — and no others — reach that session, in plan
/// order; every other session is untouched.
pub fn on_set_activity(mgr: &mut RpcClientManager, update: &Presence) -> (r: SetActivityOutcome)
    requires
        old(mgr).wf(),
    ensures
        final(mgr).wf(),
        set_activity_post(old(mgr)@, final(mgr)@, update@, r),
{
    let ghost m0 = mgr@;
    let hidden = match update.hidden {
        Some(h) => h,
        None => false,
    };
    let registered = mgr.has_client(&update.client_id);
    if hidden {
        if !registered {
            return SetActivityOutcome::Ignored;
        }
        let ghost i = index_of_id(m0, update@.client_id);
        let mut errs: Vec<UpdateError> = Vec::new();
        if let Err(e) = mgr.clear_activity_for(&update.client_id) {
            errs.push(e);
        }
        let ghost m1 = mgr@;
        if update.presence_data.has_activity_fields() {
            proof {
                assert(m1[i].client_id == update@.client_id);
                assert(contains_id(m1, update@.client_id));
                let j = index_of_id(m1, update@.client_id);
                assert(0 <= j < m1.len() && m1[j].client_id == update@.client_id);
                assert(j == i);
            }
            if let Err(e) = mgr.set_activity_for(&update.client_id, &update.presence_data) {
                errs.push(e);
            }
            proof {
                let x = SpecCall::SetActivity(spec_translate(update@.presence_data));
                assert((m0[i].calls + seq![SpecCall::Clear]) + seq![x] =~= m0[i].calls + seq![
                    SpecCall::Clear,
                    x,
                ]);
                assert(mgr@ =~= bump(m0, i, spec_plan(true, update@)));
            }
        }
        SetActivityOutcome::Relayed(errs)
    } else if registered {
        let mut errs: Vec<UpdateError> = Vec::new();
        if let Err(e) = mgr.set_activity_for(&update.client_id, &update.presence_data) {
            errs.push(e);
        }
        SetActivityOutcome::Relayed(errs)
    } else {
        match mgr.add_client(update.client_id.clone()) {
            Err(e) => SetActivityOutcome::ConnectFailed(e),
            Ok(()) => {
                let ghost m1 = mgr@;
                proof {
                    assert(m1.last().client_id == update@.client_id);
                    assert(m1[m1.len() - 1].client_id == update@.client_id);
                    assert(contains_id(m1, update@.client_id));
                    let j = index_of_id(m1, update@.client_id);
                    assert(0 <= j < m1.len() && m1[j].client_id == update@.client_id);
                    assert forall|k: int| 0 <= k < m1.len() - 1 implies m1[k].client_id
                        != update@.client_id by {
                        assert(m1[k] == m0[k]);
                        assert(!contains_id(m0, update@.client_id));
                    }
                    assert(j == m1.len() - 1);
                }
                let e = mgr.set_activity_for(&update.client_id, &update.presence_data);
                proof {
                    let x = SpecCall::SetActivity(spec_translate(update@.presence_data));
                    assert(mgr@.len() == m0.len() + 1);
                    assert(mgr@.drop_last() =~= m0);
                    assert(mgr@.last().calls =~= seq![SpecCall::Connect, x]);
                }
                SetActivityOutcome::Connected(e.err())
            },
        }
    }
}

/// The global clear: one clear call per registered session, failures
/// aggregated, no entry removed.
pub fn on_clear_activity(mgr: &mut RpcClientManager) -> (failures: Vec<(String, UpdateError)>)
    requires
        old(mgr).wf(),
    ensures
        final(mgr).wf(),
        final(mgr)@ == all_cleared(old(mgr)@),
        forall|k: int| 0 <= k < failures@.len()
            ==> contains_id(old(mgr)@, #[trigger] failures@[k].0@),
        forall|k1: int, k2: int| 0 <= k1 < k2 < failures@.len()
            ==> failures@[k1].0@ != failures@[k2].0@,
{
    mgr.clear_all_activities()
}

/// One event from the control channel, already decoded into its variant.
#[derive(Debug)]
pub enum InboundEvent {
    /// Asks for the running service's version.
    GetVersion,
    /// Announces producer settings; observed only.
    SettingUpdate(Settings),
    /// One presence update for one identity.
    SetActivity(Presence),
    /// Asks to clear every registered identity's activity.
    ClearActivity,
    /// Asks to select a local presence bundle; unsupported at runtime.
    SelectLocalPresence,
}

/// One event for the control channel.
#[derive(Debug)]
pub enum OutboundEvent {
    /// The running service's version.
    ReceiveVersion(String),
    /// The user snapshot of a connected session.
    DiscordUserSnapshot(DiscordUser),
    /// The kept files of one changed local bundle batch.
    LocalPresence(LocalFiles),
}

/// What dispatching one inbound event came to.
#[derive(Debug)]
pub enum DispatchResult {
    /// An outbound reply to the producer.
    Reply(OutboundEvent),
    /// Observed, nothing sent anywhere.
    Noted,
    /// Relayed to the identity's session.
    Session(SetActivityOutcome),
    /// The sweep ran; the aggregated per-identity failures.
    Cleared(Vec<(String, UpdateError)>),
    /// Rejected: unsupported at runtime.
    Unsupported,
}

/// Routes one inbound event.  Only a presence update or a clear touches
/// any session; a version request is answered with `version`; a settings
/// update is observed; selecting a local presence is rejected.
pub fn dispatch(mgr: &mut RpcClientManager, version: &str, ev: InboundEvent) -> (r: DispatchResult)
    requires
        old(mgr).wf(),
    ensures
        final(mgr).wf(),
        match ev {
            InboundEvent::GetVersion => final(mgr)@ == old(mgr)@ && (r matches
                DispatchResult::Reply(o) && o matches OutboundEvent::ReceiveVersion(v)
                && v@ == version@),
            InboundEvent::SettingUpdate(_) => final(mgr)@ == old(mgr)@
                && r is Noted,
            InboundEvent::SetActivity(u) => r matches DispatchResult::Session(o)
                && set_activity_post(old(mgr)@, final(mgr)@, u@, o),
            InboundEvent::ClearActivity => final(mgr)@ == all_cleared(old(mgr)@)
                && r is Cleared,
            InboundEvent::SelectLocalPresence => final(mgr)@ == old(mgr)@
                && r is Unsupported,
        },
{
    match ev {
        InboundEvent::GetVersion => DispatchResult::Reply(
            OutboundEvent::ReceiveVersion(version.to_owned()),
        ),
        InboundEvent::SettingUpdate(_) => DispatchResult::Noted,
        InboundEvent::SetActivity(u) => DispatchResult::Session(on_set_activity(mgr, &u)),
        InboundEvent::ClearActivity => DispatchResult::Cleared(on_clear_activity(mgr)),
        InboundEvent::SelectLocalPresence => DispatchResult::Unsupported,
    }
}

/// Relays one changed-files batch to the outbound stream, unchanged; no
/// session is involved.
pub fn on_local_file_set_changed(files: LocalFiles) -> (r: OutboundEvent)
    ensures
        r matches OutboundEvent::LocalPresence(f) && f.files@ == files.files@,
{
    OutboundEvent::LocalPresence(files)
}

/// How many connect calls a trace segment holds.
pub open spec fn count_connects(calls: Seq<SpecCall>) -> nat
    decreases calls.len(),
{
    if calls.len() == 0 {
        0
    } else {
        count_connects(calls.drop_last()) + (if calls.last() is Connect {
            1nat
        } else {
            0nat
        })
    }
}

/// A first update for a never-seen identity causes exactly one connect,
/// and any update for an identity whose session is registered causes
/// none: so of two updates for one never-seen identity, where the first
/// one registered the session, only the first connects.
pub proof fn lemma_connect_exactly_once(u1: PresenceModel, u2: PresenceModel)
    requires
        u1.hidden != Some(true),
    ensures
        count_connects(spec_plan(false, u1)) == 1,
        count_connects(spec_plan(true, u2)) == 0,
{
    assert(count_connects(Seq::<SpecCall>::empty()) == 0);
    assert(seq![SpecCall::Connect].drop_last() =~= Seq::<SpecCall>::empty());
    assert(count_connects(seq![SpecCall::Connect]) == 1);
    assert(seq![SpecCall::Clear].drop_last() =~= Seq::<SpecCall>::empty());
    assert(count_connects(seq![SpecCall::Clear]) == 0);

    let p1 = spec_plan(false, u1);
    assert(p1.drop_last() =~= seq![SpecCall::Connect]);
    assert(p1.last() !is Connect);
    assert(count_connects(p1) == 1);

    let p2 = spec_plan(true, u2);
    if u2.hidden == Some(true) {
        if u2.presence_data.has_activity_fields() {
            assert(p2.drop_last() =~= seq![SpecCall::Clear]);
            assert(p2.last() !is Connect);
        } else {
            assert(p2.drop_last() =~= Seq::<SpecCall>::empty());
            assert(p2.last() !is Connect);
        }
    } else {
        assert(p2.drop_last() =~= Seq::<SpecCall>::empty());
        assert(p2.last() !is Connect);
    }
    assert(count_connects(p2) == 0);
}

/// Once an update has connected and registered a session for a fresh
/// identity, that identity is registered, so the plan of any further
/// update for it holds no connect: no duplicate session.
pub proof fn lemma_second_update_reuses_session(
    m0: Seq<RpcClientModel>,
    m1: Seq<RpcClientModel>,
    u1: PresenceModel,
    u2: PresenceModel,
    r1: SetActivityOutcome,
)
    requires
        !contains_id(m0, u1.client_id),
        u1.hidden != Some(true),
        set_activity_post(m0, m1, u1, r1),
        r1 is Connected,
        u2.client_id == u1.client_id,
    ensures
        contains_id(m1, u2.client_id),
        count_connects(spec_plan(contains_id(m1, u2.client_id), u2)) == 0,
{
    assert(m1[m1.len() - 1].client_id == u2.client_id);
    assert(contains_id(m1, u2.client_id));
    lemma_connect_exactly_once(u1, u2);
}

/// Per-identity order is kept: handling an update appends its calls after
/// every call already in the identity's trace, as one contiguous segment
/// in plan order, and two updates handled in sequence leave their
/// segments in that sequence's order.
pub proof fn lemma_updates_keep_order(
    t: Seq<SpecCall>,
    reg1: bool,
    u1: PresenceModel,
    reg2: bool,
    u2: PresenceModel,
)
    ensures
        ({
            let p1 = spec_plan(reg1, u1);
            let p2 = spec_plan(reg2, u2);
            let t2 = (t + p1) + p2;
            &&& t2 == t + (p1 + p2)
            &&& forall|k: int| 0 <= k < t.len() ==> t2[k] == t[k]
            &&& forall|k: int| 0 <= k < p1.len() ==> t2[t.len() + k] == p1[k]
            &&& forall|k: int| 0 <= k < p2.len() ==> t2[t.len() + p1.len() + k] == p2[k]
        }),
{
    let p1 = spec_plan(reg1, u1);
    let p2 = spec_plan(reg2, u2);
    assert((t + p1) + p2 =~= t + (p1 + p2));
}

/// The trace of one identity's session after a whole sequence of
/// updates, each handled while the session is registered: every update
/// appends the calls of its plan.
pub open spec fn trace_after_updates(t0: Seq<SpecCall>, us: Seq<PresenceModel>) -> Seq<SpecCall>
    decreases us.len(),
{
    if us.len() == 0 {
        t0
    } else {
        trace_after_updates(t0, us.drop_last()) + spec_plan(true, us.last())
    }
}

/// Where the segment of the `j`-th update begins in that trace.
pub open spec fn segment_offset(t0: Seq<SpecCall>, us: Seq<PresenceModel>, j: int) -> int
    decreases j,
{
    if j <= 0 {
        t0.len() as int
    } else {
        segment_offset(t0, us, j - 1) + spec_plan(true, us[j - 1]).len()
    }
}

proof fn lemma_segment_offset_ge(t0: Seq<SpecCall>, us: Seq<PresenceModel>, j: int)
    requires
        0 <= j,
    ensures
        t0.len() <= segment_offset(t0, us, j),
    decreases j,
{
    if j > 0 {
        lemma_segment_offset_ge(t0, us, j - 1);
    }
}

proof fn lemma_segment_offset_drop_last(t0: Seq<SpecCall>, us: Seq<PresenceModel>, j: int)
    requires
        us.len() > 0,
        0 <= j <= us.len() - 1,
    ensures
        segment_offset(t0, us, j) == segment_offset(t0, us.drop_last(), j),
    decreases j,
{
    if j > 0 {
        lemma_segment_offset_drop_last(t0, us, j - 1);
        assert(us.drop_last()[j - 1] == us[j - 1]);
    }
}

proof fn lemma_trace_after_updates_len(t0: Seq<SpecCall>, us: Seq<PresenceModel>)
    ensures
        trace_after_updates(t0, us).len() == segment_offset(t0, us, us.len() as int),
        forall|i: int| 0 <= i < t0.len() ==> #[trigger] trace_after_updates(t0, us)[i] == t0[i],
    decreases us.len(),
{
    if us.len() > 0 {
        lemma_trace_after_updates_len(t0, us.drop_last());
        lemma_segment_offset_drop_last(t0, us, us.len() - 1);
        lemma_segment_offset_ge(t0, us.drop_last(), us.len() - 1);
        assert forall|i: int| 0 <= i < t0.len() implies trace_after_updates(t0, us)[i]
            == t0[i] by {
            assert(i < trace_after_updates(t0, us.drop_last()).len());
            assert(trace_after_updates(t0, us.drop_last())[i] == t0[i]);
        }
    }
}

/// Per-identity order over any sequence of updates for one registered
/// identity: every call already in the trace keeps its place, and the
/// `k`-th call of the `j`-th update stands at that update's segment
/// offset plus `k` — so every call of an earlier update precedes every
/// call of a later one, and each update's calls are contiguous and in
/// plan order.
pub proof fn lemma_sequence_keeps_order(
    t0: Seq<SpecCall>,
    us: Seq<PresenceModel>,
    j: int,
    k: int,
)
    requires
        0 <= j < us.len(),
        0 <= k < spec_plan(true, us[j]).len(),
    ensures
        t0.len() <= segment_offset(t0, us, j),
        segment_offset(t0, us, j) + k < trace_after_updates(t0, us).len(),
        trace_after_updates(t0, us)[segment_offset(t0, us, j) + k] == spec_plan(true, us[j])[k],
        forall|i: int| 0 <= i < t0.len() ==> #[trigger] trace_after_updates(t0, us)[i] == t0[i],
    decreases us.len(),
{
    lemma_segment_offset_ge(t0, us, j);
    lemma_trace_after_updates_len(t0, us);
    if j == us.len() - 1 {
        lemma_trace_after_updates_len(t0, us.drop_last());
        lemma_segment_offset_drop_last(t0, us, j);
    } else {
        assert(us.drop_last()[j] == us[j]);
        lemma_sequence_keeps_order(t0, us.drop_last(), j, k);
        lemma_segment_offset_drop_last(t0, us, j);
        lemma_trace_after_updates_len(t0, us.drop_last());
    }
}

/// A hidden update for an identity with no session plans no platform call
/// at all: no spurious connect, no clear.
pub proof fn lemma_hidden_unknown_is_silent(u: PresenceModel)
    requires
        u.hidden == Some(true),
    ensures
        spec_plan(false, u) == Seq::<SpecCall>::empty(),
{
}

/// A hidden update for an identity with a session clears first: the
/// clear is the first call, every later call is a set, and a set follows
/// exactly when the update carries activity fields.
pub proof fn lemma_hidden_clears_before_set(u: PresenceModel)
    requires
        u.hidden == Some(true),
    ensures
        ({
            let p = spec_plan(true, u);
            &&& p.len() >= 1 && p[0] is Clear
            &&& forall|j: int| 0 < j < p.len() ==> p[j] is SetActivity
            &&& u.presence_data.has_activity_fields() ==> p == seq![
                SpecCall::Clear,
                SpecCall::SetActivity(spec_translate(u.presence_data)),
            ]
            &&& !u.presence_data.has_activity_fields() ==> p == seq![SpecCall::Clear]
        }),
{
}

/// Connect counts add up over concatenated trace segments.
pub proof fn lemma_count_connects_add(a: Seq<SpecCall>, b: Seq<SpecCall>)
    ensures
        count_connects(a + b) == count_connects(a) + count_connects(b),
    decreases b.len(),
{
    if b.len() == 0 {
        assert(a + b =~= a);
    } else {
        lemma_count_connects_add(a, b.drop_last());
        assert((a + b).drop_last() =~= a + b.drop_last());
        assert((a + b).last() == b.last());
    }
}

/// Two updates for one already-registered identity, handled in sequence,
/// leave that identity's trace extended by the two plans in arrival
/// order, and the registry holds no more sessions than before.
pub proof fn lemma_registry_keeps_identity_order(
    m0: Seq<RpcClientModel>,
    m1: Seq<RpcClientModel>,
    m2: Seq<RpcClientModel>,
    u1: PresenceModel,
    u2: PresenceModel,
    r1: SetActivityOutcome,
    r2: SetActivityOutcome,
)
    requires
        crate::rpc_client_manager::unique_ids(m0),
        contains_id(m0, u1.client_id),
        u2.client_id == u1.client_id,
        set_activity_post(m0, m1, u1, r1),
        set_activity_post(m1, m2, u2, r2),
    ensures
        ({
            let i = index_of_id(m0, u1.client_id);
            &&& m2.len() == m0.len()
            &&& m2[i].client_id == m0[i].client_id
            &&& m2[i].calls == m0[i].calls + (spec_plan(true, u1) + spec_plan(true, u2))
        }),
{
    let id = u1.client_id;
    let i = index_of_id(m0, id);
    assert(0 <= i < m0.len() && m0[i].client_id == id);
    let p1 = spec_plan(true, u1);
    let p2 = spec_plan(true, u2);
    assert(m1 == bump(m0, i, p1));
    assert(m1[i].client_id == id);
    assert(contains_id(m1, id));
    assert forall|k: int| 0 <= k < m1.len() implies m1[k].client_id == m0[k].client_id by {}
    let j = index_of_id(m1, id);
    assert(0 <= j < m1.len() && m1[j].client_id == id);
    assert(j == i);
    assert(m2 == bump(m1, i, p2));
    assert((m0[i].calls + p1) + p2 =~= m0[i].calls + (p1 + p2));
}

/// A never-seen identity, brought in by a first update and then updated
/// again: its session's trace is the two plans in arrival order and holds
/// exactly one connect; every session that existed before is untouched by
/// the first step's connect.
pub proof fn lemma_fresh_identity_connects_once(
    m0: Seq<RpcClientModel>,
    m1: Seq<RpcClientModel>,
    m2: Seq<RpcClientModel>,
    u1: PresenceModel,
    u2: PresenceModel,
    r1: SetActivityOutcome,
    r2: SetActivityOutcome,
)
    requires
        crate::rpc_client_manager::unique_ids(m0),
        !contains_id(m0, u1.client_id),
        u1.hidden != Some(true),
        r1 is Connected,
        u2.client_id == u1.client_id,
        set_activity_post(m0, m1, u1, r1),
        set_activity_post(m1, m2, u2, r2),
    ensures
        m2.len() == m0.len() + 1,
        m2[m0.len() as int].client_id == u1.client_id,
        m2[m0.len() as int].calls == spec_plan(false, u1) + spec_plan(true, u2),
        count_connects(m2[m0.len() as int].calls) == 1,
{
    let id = u1.client_id;
    let n = m0.len() as int;
    let p1 = spec_plan(false, u1);
    let p2 = spec_plan(true, u2);
    assert(m1.len() == m0.len() + 1);
    assert(m1[n].client_id == id);
    assert(contains_id(m1, id));
    assert forall|k: int| 0 <= k < n implies m1[k].client_id != id by {
        assert(m1.drop_last()[k] == m1[k]);
        assert(m1[k] == m0[k]);
        assert(!contains_id(m0, id));
    }
    let j = index_of_id(m1, id);
    assert(0 <= j < m1.len() && m1[j].client_id == id);
    assert(j == n);
    assert(m2 == bump(m1, n, p2));
    assert(m1[n].calls == p1);
    assert(m2[n].calls == p1 + p2);
    lemma_connect_exactly_once(u1, u2);
    lemma_count_connects_add(p1, p2);
}

/// The sweep reaches every registered session exactly once: each keeps
/// its identity and user and gains exactly one clear at the end of its
/// trace, whatever became of the clears on the other sessions.
pub proof fn lemma_sweep_clears_each_once(m: Seq<RpcClientModel>, i: int)
    requires
        0 <= i < m.len(),
    ensures
        all_cleared(m).len() == m.len(),
        all_cleared(m)[i].client_id == m[i].client_id,
        all_cleared(m)[i].user == m[i].user,
        all_cleared(m)[i].calls == m[i].calls.push(SpecCall::Clear),
{
}

} // verus!
