//! What a call asks of the client, step by step.
use vstd::prelude::*;
use wacore::voip::CallRegistry;
use crate::address::Jid;
use crate::address::JidView;
use crate::address::jid_text;
use crate::address::names_same_device;
use crate::address::same_device;
use crate::call::Call;
use crate::call::CallKind;
use crate::call::CallView;
use crate::registry::Calls;
use crate::registry::TargetsView;
use crate::registry::calls;
use crate::registry::dismiss_targets;
use crate::registry::end_call;
use crate::registry::rekey;
use crate::registry::rekeyed;
use crate::registry::sound;
use crate::registry::targets_view;
use crate::registry::without_rekey;
use crate::registry::without_targets;
use crate::stanza::Dismissal;
use crate::stanza::DismissalView;
use crate::stanza::Elsewhere;

verus! {

/// Why a call is reported as missed instead of ringing.
#[derive(Clone, Copy, Debug, PartialEq, Eq, Structural)]
pub enum MissedReason {
    /// The offer was replayed from the offline queue: the call is long dead.
    Offline,
    /// The caller gave up on a call that we never answered.
    Remote,
}

/// A call that must not ring.
#[derive(Debug)]
pub struct MissedCall {
    pub from: Jid,
    pub call_id: String,
    pub timestamp: i64,
    pub reason: MissedReason,
}

/// What a missed call holds.
pub struct MissedCallView {
    pub from: JidView,
    pub call_id: Seq<char>,
    pub timestamp: i64,
    pub reason: MissedReason,
}

impl View for MissedCall {
    type V = MissedCallView;

    open spec fn view(&self) -> MissedCallView {
        MissedCallView {
            from: self.from@,
            call_id: self.call_id@,
            timestamp: self.timestamp,
            reason: self.reason,
        }
    }
}

/// One thing to do about a call. The steps for a call are performed in order; a step that
/// fails does not keep the later ones from being performed.
#[derive(Debug)]
pub enum Step {
    /// Report a missed call.
    Missed(MissedCall),
    /// Send the caller the receipt for the offer.
    AckOffer,
    /// Tell the media side of the call which device answered.
    Rekey { call_id: String, answering: String },
    /// Tell a device to stop ringing.
    Dismiss(Dismissal),
    /// End the call: drop it from the registry and from wherever else it is kept.
    EndCall { call_id: String },
    /// Report the call.
    Deliver,
}

/// What a step holds.
pub enum StepView {
    Missed(MissedCallView),
    AckOffer,
    Rekey { call_id: Seq<char>, answering: Seq<char> },
    Dismiss(DismissalView),
    EndCall { call_id: Seq<char> },
    Deliver,
}

impl View for Step {
    type V = StepView;

    open spec fn view(&self) -> StepView {
        match self {
            Step::Missed(missed) => StepView::Missed(missed@),
            Step::AckOffer => StepView::AckOffer,
            Step::Rekey { call_id, answering } => StepView::Rekey {
                call_id: call_id@,
                answering: answering@,
            },
            Step::Dismiss(dismissal) => StepView::Dismiss(dismissal@),
            Step::EndCall { call_id } => StepView::EndCall { call_id: call_id@ },
            Step::Deliver => StepView::Deliver,
        }
    }
}

/// What a list of steps holds.
pub open spec fn step_views(steps: Seq<Step>) -> Seq<StepView> {
    steps.map_values(|s: Step| s@)
}

/// A call, reported as missed.
pub open spec fn missed(call: CallView, reason: MissedReason) -> StepView {
    StepView::Missed(
        MissedCallView {
            from: call.from,
            call_id: call.call_id,
            timestamp: call.timestamp,
            reason,
        },
    )
}

/// What the other devices of the peer are told once one of them has decided on the call.
pub open spec fn decided(kind: CallKind) -> Option<Elsewhere> {
    match kind {
        CallKind::Accept => Some(Elsewhere::Accepted),
        CallKind::Reject => Some(Elsewhere::Rejected),
        _ => None,
    }
}

/// The dismissal of one rung device, unless it is the one that decided on the call.
pub open spec fn sibling(
    call: CallView,
    call_creator: JidView,
    reason: Elsewhere,
    device: JidView,
) -> Option<DismissalView> {
    if names_same_device(device, call.from) {
        None
    } else {
        Some(DismissalView { to: device, call_id: call.call_id, call_creator, reason })
    }
}

/// The dismissals that follow from a call: one for each rung device but the one that accepted
/// or rejected, in the order in which they were rung.
pub open spec fn dismissals(call: CallView, targets: Option<TargetsView>) -> Seq<DismissalView> {
    match (decided(call.kind), targets) {
        (Some(reason), Some((call_creator, devices))) => devices.filter_map(
            |device: JidView| sibling(call, call_creator, reason, device),
        ),
        _ => Seq::empty(),
    }
}

/// The dismissals of a call as steps.
pub open spec fn dismiss_steps(call: CallView, targets: Option<TargetsView>) -> Seq<StepView> {
    dismissals(call, targets).map_values(|d: DismissalView| StepView::Dismiss(d))
}

/// What is done about a call, given the devices that it rang and whether it is ongoing.
pub open spec fn plan(call: CallView, targets: Option<TargetsView>, ongoing: bool) -> Seq<
    StepView,
> {
    let end = StepView::EndCall { call_id: call.call_id };
    match call.kind {
        CallKind::Offer => if call.offline {
            seq![missed(call, MissedReason::Offline)]
        } else {
            seq![StepView::AckOffer, StepView::Deliver]
        },
        CallKind::Accept => seq![
            StepView::Rekey { call_id: call.call_id, answering: jid_text(call.from) },
        ] + dismiss_steps(call, targets) + seq![StepView::Deliver],
        CallKind::Reject => dismiss_steps(call, targets) + seq![end, StepView::Deliver],
        CallKind::Terminate => if ongoing {
            seq![end, StepView::Deliver]
        } else {
            seq![missed(call, MissedReason::Remote), end, StepView::Deliver]
        },
        CallKind::Other => seq![StepView::Deliver],
    }
}

/// What is done about a call, given the ongoing calls.
pub open spec fn response(call: CallView, calls: Calls) -> Seq<StepView> {
    plan(call, dismiss_targets(calls, call.call_id), calls.contains_key(call.call_id))
}

/// Whether it takes a look into the registry to decide what is done about a call.
pub open spec fn consults_registry(kind: CallKind) -> bool {
    kind is Accept || kind is Reject || kind is Terminate
}

/// The ongoing calls once it is decided what is done about a call: where a device decided on
/// it, the list of devices that it rang is used up.
pub open spec fn calls_after(call: CallView, calls: Calls) -> Calls {
    if decided(call.kind) is Some {
        without_targets(calls, call.call_id)
    } else {
        calls
    }
}

/// The ongoing calls once a step has been performed.
pub open spec fn calls_after_step(calls: Calls, step: StepView) -> Calls {
    match step {
        StepView::Rekey { call_id, .. } => without_rekey(calls, call_id),
        StepView::EndCall { call_id } => calls.remove(call_id),
        _ => calls,
    }
}

/// The ongoing calls once a list of steps has been performed.
pub open spec fn calls_after_steps(calls: Calls, steps: Seq<StepView>) -> Calls
    decreases steps.len(),
{
    if steps.len() == 0 {
        calls
    } else {
        calls_after_step(calls_after_steps(calls, steps.drop_last()), steps.last())
    }
}

/// The ongoing calls once everything has been done about a call.
pub open spec fn calls_settled(call: CallView, calls: Calls) -> Calls {
    calls_after_steps(calls_after(call, calls), response(call, calls))
}

/// A call, reported as missed.
fn missed_call(call: &Call, reason: MissedReason) -> (r: Step)
    ensures
        r@ == missed(call@, reason),
{
    Step::Missed(
        MissedCall {
            from: call.from.clone(),
            call_id: call.call_id.clone(),
            timestamp: call.timestamp,
            reason,
        },
    )
}

/// The dismissals that follow from a call, given its creator and the devices that it rang.
pub fn dismiss_outgoing_siblings(call: &Call, targets: &Option<(Jid, Vec<Jid>)>) -> (r: Vec<
    Dismissal,
>)
    ensures
        r@.map_values(|d: Dismissal| d@) == dismissals(call@, targets_view(*targets)),
{
    let mut others: Vec<Dismissal> = Vec::new();
    let reason = match call.kind {
        CallKind::Accept => Elsewhere::Accepted,
        CallKind::Reject => Elsewhere::Rejected,
        _ => {
            assert(others@.map_values(|d: Dismissal| d@) =~= Seq::empty());
            return others;
        },
    };
    if let Some((call_creator, devices)) = targets {
        let ghost rung = devices@.map_values(|j: Jid| j@);
        let ghost keep = |device: JidView| sibling(call@, call_creator@, reason, device);
        assert(others@.map_values(|d: Dismissal| d@) =~= rung.take(0).filter_map(keep));
        for i in 0..devices.len()
            invariant
                rung == devices@.map_values(|j: Jid| j@),
                keep == (|device: JidView| sibling(call@, call_creator@, reason, device)),
                others@.map_values(|d: Dismissal| d@) == rung.take(i as int).filter_map(keep),
        {
            let ghost before = others@;
            let device = &devices[i];
            proof {
                rung.lemma_filter_map_take_succ(keep, i as int);
            }
            if !same_device(device, &call.from) {
                others.push(
                    Dismissal {
                        to: device.clone(),
                        call_id: call.call_id.clone(),
                        call_creator: call_creator.clone(),
                        reason,
                    },
                );
                assert(others@.map_values(|d: Dismissal| d@) =~= before.map_values(
                    |d: Dismissal| d@,
                ) + seq![others@.last()@]);
            } else {
                assert(others@.map_values(|d: Dismissal| d@) =~= before.map_values(
                    |d: Dismissal| d@,
                ) + Seq::empty());
            }
        }
        assert(rung.take(rung.len() as int) =~= rung);
    } else {
        assert(others@.map_values(|d: Dismissal| d@) =~= Seq::empty());
    }
    others
}

/// A step more in the list is a step more in what it holds.
broadcast proof fn lemma_step_views_push(steps: Seq<Step>, step: Step)
    ensures
        #[trigger] step_views(steps.push(step)) == step_views(steps).push(step@),
{
    assert(step_views(steps.push(step)) =~= step_views(steps).push(step@));
}

/// Appends dismissals to a list of steps.
fn push_dismissals(steps: &mut Vec<Step>, others: Vec<Dismissal>)
    ensures
        step_views(final(steps)@) == step_views(old(steps)@) + others@.map_values(
            |d: Dismissal| StepView::Dismiss(d@),
        ),
{
    let ghost before = steps@;
    for other in iter: others
        invariant
            iter.seq() == others@,
            step_views(steps@) == step_views(before) + others@.take(iter.index()).map_values(
                |d: Dismissal| StepView::Dismiss(d@),
            ),
    {
        let ghost so_far = steps@;
        steps.push(Step::Dismiss(other));
        proof {
            lemma_step_views_push(so_far, Step::Dismiss(other));
        }
        assert(others@.take(iter.index() + 1) =~= others@.take(iter.index()).push(other));
    }
    assert(others@.take(others@.len() as int) =~= others@);
}

/// What is done about a call, given the devices that it rang and whether it is ongoing.
pub fn plan_steps(call: &Call, targets: &Option<(Jid, Vec<Jid>)>, ongoing: bool) -> (r: Vec<Step>)
    ensures
        step_views(r@) == plan(call@, targets_view(*targets), ongoing),
{
    broadcast use lemma_step_views_push;

    let mut steps: Vec<Step> = Vec::new();
    assert(step_views(steps@) =~= Seq::empty());
    if call.kind == CallKind::Offer && call.offline {
        steps.push(missed_call(call, MissedReason::Offline));
        assert(step_views(steps@) =~= plan(call@, targets_view(*targets), ongoing));
        return steps;
    }
    if call.kind == CallKind::Offer {
        steps.push(Step::AckOffer);
    }
    if call.kind == CallKind::Accept {
        steps.push(Step::Rekey { call_id: call.call_id.clone(), answering: call.from.text() });
    }
    let others = dismiss_outgoing_siblings(call, targets);
    let ghost told = dismiss_steps(call@, targets_view(*targets));
    assert(others@.map_values(|d: Dismissal| StepView::Dismiss(d@)) =~= told) by {
        let views = others@.map_values(|d: Dismissal| d@);
        assert(forall|i: int| 0 <= i < others@.len() ==> #[trigger] views[i] == others@[i]@);
    }
    push_dismissals(&mut steps, others);
    if call.kind == CallKind::Terminate && !ongoing {
        steps.push(missed_call(call, MissedReason::Remote));
    }
    if call.kind == CallKind::Reject || call.kind == CallKind::Terminate {
        steps.push(Step::EndCall { call_id: call.call_id.clone() });
    }
    steps.push(Step::Deliver);
    assert(step_views(steps@) =~= plan(call@, targets_view(*targets), ongoing));
    steps
}

/// Performs the part of a step that concerns the registry: hands the address of the answering
/// device on to the media side of the call, or ends the call.
pub fn perform_on_registry(registry: &mut CallRegistry, step: &Step)
    requires
        step@ is Rekey || step@ is EndCall ==> sound(*old(registry)),
    ensures
        calls(*final(registry)) == calls_after_step(calls(*old(registry)), step@),
        step@ matches StepView::Rekey { call_id, answering } ==> *final(registry) == rekeyed(
            *old(registry),
            call_id,
            answering,
        ),
        !(step@ is Rekey || step@ is EndCall) ==> *final(registry) == *old(registry),
        sound(*old(registry)) ==> sound(*final(registry)),
{
    match step {
        Step::Rekey { call_id, answering } => rekey(registry, call_id.as_str(), answering),
        Step::EndCall { call_id } => {
            end_call(registry, call_id.as_str());
        },
        Step::Missed(_) | Step::AckOffer | Step::Dismiss(_) | Step::Deliver => {},
    }
}

} // verus!
