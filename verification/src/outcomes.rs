//! What each kind of call comes to, down to the fields of every step and of every record.
use vstd::prelude::*;
use wacore_binary::Node;
use crate::address::Jid;
use crate::address::JidView;
use crate::address::jid_text;
use crate::call::CallKind;
use crate::call::CallView;
use crate::plan::MissedCallView;
use crate::plan::MissedReason;
use crate::plan::Step;
use crate::plan::StepView;
use crate::plan::calls_after;
use crate::plan::calls_after_step;
use crate::plan::calls_after_steps;
use crate::plan::calls_settled;
use crate::plan::consults_registry;
use crate::plan::dismissals;
use crate::plan::plan;
use crate::plan::response;
use crate::plan::sibling;
use crate::plan::step_views;
use crate::registry::CallRecord;
use crate::registry::Calls;
use crate::registry::TargetsView;
use crate::registry::dismiss_targets;
use crate::registry::targets_view;
use crate::registry::without_rekey;
use crate::registry::without_targets;
use crate::stanza::Content;
use crate::stanza::Dismissal;
use crate::stanza::DismissalView;
use crate::stanza::Elsewhere;
use crate::stanza::Value;
use crate::stanza::answering_address;
use crate::stanza::element;
use crate::stanza::own_view;
use crate::stanza::receipt_for;
use crate::stanza::sent;

verus! {

/// An offer rings and is acknowledged, unless it was replayed: then it is only missed. The
/// registry does not bear on it.
pub proof fn what_an_offer_comes_to(
    call: CallView,
    targets: Option<TargetsView>,
    ongoing: bool,
    calls: Calls,
)
    requires
        call.kind is Offer,
    ensures
        call.offline ==> plan(call, targets, ongoing) == seq![
            StepView::Missed(
                MissedCallView {
                    from: call.from,
                    call_id: call.call_id,
                    timestamp: call.timestamp,
                    reason: MissedReason::Offline,
                },
            ),
        ],
        !call.offline ==> plan(call, targets, ongoing) == seq![
            StepView::AckOffer,
            StepView::Deliver,
        ],
        response(call, calls) == plan(call, targets, ongoing),
{
}

/// The dismissals that an answer asks for: one for each rung device that differs from the
/// answering one in its user, its server or its number, in the order in which they were rung.
/// Each names that device, the call, its creator and the outcome.
pub proof fn what_an_answer_dismisses(
    call: CallView,
    call_creator: JidView,
    devices: Seq<JidView>,
)
    requires
        call.kind is Accept || call.kind is Reject,
    ensures
        ({
            let others = devices.filter(
                |other: JidView|
                    !(other.user == call.from.user && other.server == call.from.server
                        && other.device == call.from.device),
            );
            let told = dismissals(call, Some((call_creator, devices)));
            &&& told.len() == others.len()
            &&& forall|i: int|
                0 <= i < told.len() ==> {
                    &&& (#[trigger] told[i]).to == others[i]
                    &&& told[i].call_id == call.call_id
                    &&& told[i].call_creator == call_creator
                    &&& told[i].reason is Accepted <==> call.kind is Accept
                }
        }),
{
    let reason = if call.kind is Accept {
        Elsewhere::Accepted
    } else {
        Elsewhere::Rejected
    };
    lemma_siblings(call, call_creator, reason, devices);
}

/// Nobody is dismissed where nobody was rung, or where the stanza is no answer.
pub proof fn who_is_never_dismissed(call: CallView, targets: Option<TargetsView>)
    ensures
        targets is None ==> dismissals(call, targets).len() == 0,
        !(call.kind is Accept || call.kind is Reject) ==> dismissals(call, targets).len() == 0,
{
}

/// The steps about an answer. An accept first hands on the address of the answering device; then
/// the dismissals go out, one by one; then a rejected call is ended; and last the call is
/// reported. Whether the call is ongoing does not bear on it.
pub proof fn what_an_answer_comes_to(
    call: CallView,
    targets: Option<TargetsView>,
    ongoing: bool,
)
    requires
        call.kind is Accept || call.kind is Reject,
    ensures
        ({
            let steps = plan(call, targets, ongoing);
            let told = dismissals(call, targets);
            let first: int = if call.kind is Accept { 1 } else { 0 };
            &&& steps.len() == told.len() + 2
            &&& call.kind is Accept ==> steps[0] == (StepView::Rekey {
                call_id: call.call_id,
                answering: jid_text(call.from),
            })
            &&& forall|i: int|
                0 <= i < told.len() ==> #[trigger] steps[first + i] == StepView::Dismiss(told[i])
            &&& call.kind is Reject ==> steps[told.len() as int] == (StepView::EndCall {
                call_id: call.call_id,
            })
            &&& steps[steps.len() - 1] == StepView::Deliver
        }),
{
}

/// The steps about a terminate: the call is reported as missed if it is not ongoing, it is ended
/// in any case, and last it is reported. Who was rung does not bear on it.
pub proof fn what_a_terminate_comes_to(
    call: CallView,
    targets: Option<TargetsView>,
    ongoing: bool,
)
    requires
        call.kind is Terminate,
    ensures
        plan(call, targets, ongoing) == (if ongoing {
            Seq::<StepView>::empty()
        } else {
            seq![
                StepView::Missed(
                    MissedCallView {
                        from: call.from,
                        call_id: call.call_id,
                        timestamp: call.timestamp,
                        reason: MissedReason::Remote,
                    },
                ),
            ]
        }) + seq![StepView::EndCall { call_id: call.call_id }, StepView::Deliver],
{
    assert(plan(call, targets, ongoing) =~= (if ongoing {
        Seq::<StepView>::empty()
    } else {
        seq![
            StepView::Missed(
                MissedCallView {
                    from: call.from,
                    call_id: call.call_id,
                    timestamp: call.timestamp,
                    reason: MissedReason::Remote,
                },
            ),
        ]
    }) + seq![StepView::EndCall { call_id: call.call_id }, StepView::Deliver]);
}

/// Other signaling is just reported.
pub proof fn what_other_signaling_comes_to(
    call: CallView,
    targets: Option<TargetsView>,
    ongoing: bool,
)
    requires
        call.kind is Other,
    ensures
        plan(call, targets, ongoing) == seq![StepView::Deliver],
{
}

/// What is decided goes by the record of the call, and by nothing else in the registry: by the
/// devices that it rang and its creator where it is ongoing and rang any, and by whether it is
/// ongoing.
pub proof fn what_is_decided_goes_by_the_record(call: CallView, calls: Calls)
    ensures
        !calls.contains_key(call.call_id) ==> response(call, calls) == plan(call, None, false),
        calls.contains_key(call.call_id) && calls[call.call_id].ring_devices.len() == 0
            ==> response(call, calls) == plan(call, None, true),
        calls.contains_key(call.call_id) && calls[call.call_id].ring_devices.len() > 0
            ==> response(call, calls) == plan(
            call,
            Some((calls[call.call_id].call_creator, calls[call.call_id].ring_devices)),
            true,
        ),
{
}

/// Deciding what is done about a call changes one thing in the registry at most: an answer uses
/// up the devices that its call rang. In particular a media side that waits to hear who answered
/// goes on waiting, until the step that tells it.
pub proof fn deciding_only_uses_up_the_rung_devices(call: CallView, calls: Calls, id: Seq<char>)
    ensures
        calls_after(call, calls).contains_key(id) <==> calls.contains_key(id),
        calls.contains_key(id) ==> {
            let before = calls[id];
            let after = calls_after(call, calls)[id];
            &&& after.generation == before.generation
            &&& after.call_creator == before.call_creator
            &&& after.awaits_rekey == before.awaits_rekey
            &&& id == call.call_id && (call.kind is Accept || call.kind is Reject)
                ==> after.ring_devices.len() == 0
            &&& !(id == call.call_id && (call.kind is Accept || call.kind is Reject))
                ==> after.ring_devices == before.ring_devices
        },
{
}

/// A media side that waits when an accept comes in still waits when the step is performed that
/// tells it who answered. That step is the first one, it is for this call, and it holds the text
/// of the address that the accept came from. After it nobody waits any more.
pub proof fn waiting_media_side_hears_who_answered(call: CallView, calls: Calls)
    requires
        call.kind is Accept,
        calls.contains_key(call.call_id),
        calls[call.call_id].awaits_rekey,
    ensures
        calls_after(call, calls).contains_key(call.call_id),
        calls_after(call, calls)[call.call_id].awaits_rekey,
        response(call, calls)[0] is Rekey,
        response(call, calls)[0]->Rekey_call_id == call.call_id,
        response(call, calls)[0]->answering == jid_text(call.from),
        !calls_after_step(
            calls_after(call, calls),
            response(call, calls)[0],
        )[call.call_id].awaits_rekey,
{
}

/// What a step does to the record of a call: ending the call drops it, telling who answered ends
/// the waiting, and nothing else is touched.
pub proof fn what_a_step_does(calls: Calls, step: StepView, id: Seq<char>)
    ensures
        calls_after_step(calls, step).contains_key(id) <==> calls.contains_key(id) && !(
        step matches StepView::EndCall { call_id } && call_id == id),
        calls_after_step(calls, step).contains_key(id) ==> {
            let before = calls[id];
            let after = calls_after_step(calls, step)[id];
            &&& after.generation == before.generation
            &&& after.call_creator == before.call_creator
            &&& after.ring_devices == before.ring_devices
            &&& after.awaits_rekey <==> before.awaits_rekey && !(
            step matches StepView::Rekey { call_id, .. } && call_id == id)
        },
{
}

/// Steps are performed one after the other.
pub proof fn steps_are_performed_in_order(calls: Calls, steps: Seq<StepView>, last: StepView)
    ensures
        calls_after_steps(calls, Seq::empty()) == calls,
        calls_after_steps(calls, steps.push(last)) == calls_after_step(
            calls_after_steps(calls, steps),
            last,
        ),
{
    assert(steps.push(last).drop_last() =~= steps);
}

/// The registry once everything is done about a call, record by record. A reject or a terminate
/// has dropped its call. An accept has used up the devices that its call rang and told its media
/// side. Nothing else is different.
pub proof fn what_is_left_in_the_registry(call: CallView, calls: Calls, id: Seq<char>)
    ensures
        calls_settled(call, calls).contains_key(id) <==> calls.contains_key(id) && !(id
            == call.call_id && (call.kind is Reject || call.kind is Terminate)),
        calls_settled(call, calls).contains_key(id) ==> {
            let before = calls[id];
            let after = calls_settled(call, calls)[id];
            let accepted = id == call.call_id && call.kind is Accept;
            &&& after.generation == before.generation
            &&& after.call_creator == before.call_creator
            &&& accepted ==> after.ring_devices.len() == 0 && !after.awaits_rekey
            &&& !accepted ==> after.ring_devices == before.ring_devices && after.awaits_rekey
                == before.awaits_rekey
        },
{
    let steps = response(call, calls);
    let start = calls_after(call, calls);
    lemma_record_after(start, steps, id);
    if call.kind is Accept || call.kind is Reject {
        let targets = dismiss_targets(calls, call.call_id);
        what_an_answer_comes_to(call, targets, calls.contains_key(call.call_id));
        let told = dismissals(call, targets);
        let first: int = if call.kind is Accept { 1 } else { 0 };
        assert forall|i: int| first <= i < first + told.len() implies #[trigger] steps[i]
            is Dismiss by {
            assert(steps[first + (i - first)] == StepView::Dismiss(told[i - first]));
        }
        if call.kind is Reject {
            assert(steps[told.len() as int] == (StepView::EndCall { call_id: call.call_id }));
        }
    } else if call.kind is Terminate {
        assert(steps[steps.len() - 2] == (StepView::EndCall { call_id: call.call_id }));
    }
}

/// A call is looked up in the registry for an answer and for a terminate, and for nothing else.
pub proof fn when_the_registry_is_consulted(kind: CallKind)
    ensures
        consults_registry(kind) <==> kind is Accept || kind is Reject || kind is Terminate,
        !consults_registry(kind) <==> kind is Offer || kind is Other,
{
}

/// The devices that can be told to stop ringing are those that the call rang, all of them and in
/// order, with its creator; there are none where the call is unknown or the list is empty.
pub proof fn which_devices_can_be_dismissed(
    calls: Calls,
    call_id: Seq<char>,
    taken: Option<(Jid, Vec<Jid>)>,
)
    requires
        targets_view(taken) == dismiss_targets(calls, call_id),
    ensures
        dismiss_targets(calls, call_id) is Some <==> calls.contains_key(call_id)
            && calls[call_id].ring_devices.len() > 0,
        dismiss_targets(calls, call_id) matches Some(targets) ==> {
            &&& targets.0 == calls[call_id].call_creator
            &&& targets.1 == calls[call_id].ring_devices
        },
        taken is Some <==> calls.contains_key(call_id) && calls[call_id].ring_devices.len() > 0,
        taken matches Some((creator, devices)) ==> {
            &&& creator@ == calls[call_id].call_creator
            &&& devices@.len() == calls[call_id].ring_devices.len()
            &&& forall|i: int|
                0 <= i < devices@.len() ==> (#[trigger] devices@[i])@
                    == calls[call_id].ring_devices[i]
        },
{
    if let Some((_, devices)) = taken {
        let views = devices@.map_values(|j: Jid| j@);
        assert(forall|i: int| 0 <= i < devices@.len() ==> #[trigger] views[i] == devices@[i]@);
        assert forall|i: int| 0 <= i < devices@.len() implies (#[trigger] devices@[i])@
            == calls[call_id].ring_devices[i] by {
            assert(views[i] == devices@[i]@);
        }
    }
}

/// Taking the rung devices of a call empties that list. The call stays, and so does everything
/// else about it and about the other calls.
pub proof fn taking_the_rung_devices(calls: Calls, call_id: Seq<char>, id: Seq<char>)
    ensures
        without_targets(calls, call_id).contains_key(id) <==> calls.contains_key(id),
        calls.contains_key(id) ==> {
            let after = without_targets(calls, call_id)[id];
            &&& after.generation == calls[id].generation
            &&& after.call_creator == calls[id].call_creator
            &&& after.awaits_rekey == calls[id].awaits_rekey
            &&& id == call_id ==> after.ring_devices.len() == 0
            &&& id != call_id ==> after.ring_devices == calls[id].ring_devices
        },
{
}

/// Telling the media side of a call who answered ends its waiting. The call stays, and so does
/// everything else about it and about the other calls.
pub proof fn telling_the_media_side(calls: Calls, call_id: Seq<char>, id: Seq<char>)
    ensures
        without_rekey(calls, call_id).contains_key(id) <==> calls.contains_key(id),
        calls.contains_key(id) ==> {
            let after = without_rekey(calls, call_id)[id];
            &&& after.generation == calls[id].generation
            &&& after.call_creator == calls[id].call_creator
            &&& after.ring_devices == calls[id].ring_devices
            &&& id == call_id ==> !after.awaits_rekey
            &&& id != call_id ==> after.awaits_rekey == calls[id].awaits_rekey
        },
{
}

/// What the receipt for an offer says, given the addresses of ours that it was made with. It goes
/// to the caller under the id of the stanza. It comes from our LID if the caller is at a LID and
/// from our phone number otherwise, and names no sender where we lack that address. It holds one
/// `<offer>`, which names the call and its creator. No other call has a receipt.
pub proof fn what_a_receipt_says(
    call: CallView,
    lid: Option<Jid>,
    pn: Option<Jid>,
    receipt: Option<Node>,
)
    requires
        sent(receipt) == receipt_for(
            call,
            answering_address(call.from, own_view(lid), own_view(pn)),
        ),
    ensures
        receipt is Some <==> call.kind is Offer,
        receipt matches Some(node) ==> {
            let stanza = element(node);
            let own = if call.from.server is Lid {
                lid
            } else {
                pn
            };
            &&& stanza.tag == "receipt"@
            &&& stanza.attrs.len() == (if own is Some { 3int } else { 2int })
            &&& stanza.attrs[0] == ("to"@, Value::Address(call.from))
            &&& stanza.attrs[1] == ("id"@, Value::Text(call.stanza_id))
            &&& own matches Some(jid) ==> stanza.attrs[2] == ("from"@, Value::Address(jid@))
            &&& stanza.content matches Content::Children(children)
            &&& children.len() == 1
            &&& children[0].tag == "offer"@
            &&& children[0].attrs.len() == 2
            &&& children[0].attrs[0] == ("call-id"@, Value::Text(call.call_id))
            &&& children[0].attrs[1] == ("call-creator"@, Value::Address(call.call_creator))
            &&& children[0].content is Nothing
        },
{
}

/// A report of a missed call in a list of steps, by the fields that it is read by: they are those
/// of the stanza.
pub proof fn what_a_missed_call_reports(call: CallView, calls: Calls, steps: Seq<Step>, i: int)
    requires
        step_views(steps) == response(call, calls),
        0 <= i < steps.len(),
        steps[i] is Missed,
    ensures
        steps[i]->Missed_0.from.user@ == call.from.user,
        steps[i]->Missed_0.from.server == call.from.server,
        steps[i]->Missed_0.from.agent == call.from.agent,
        steps[i]->Missed_0.from.device == call.from.device,
        steps[i]->Missed_0.from.integrator == call.from.integrator,
        steps[i]->Missed_0.call_id@ == call.call_id,
        steps[i]->Missed_0.timestamp == call.timestamp,
        steps[i]->Missed_0.reason is Offline ==> call.kind is Offer && call.offline,
        steps[i]->Missed_0.reason is Remote ==> call.kind is Terminate && !calls.contains_key(
            call.call_id,
        ),
        i == 0,
{
    assert(step_views(steps)[i] == steps[i]@);
    assert(response(call, calls)[i] == StepView::Missed(steps[i]->Missed_0@));
    crate::laws::missed_calls(call, calls);
}

/// A dismissal in a list of steps, by the fields that it is read by: it goes to a device that the
/// call rang and that did not answer, and it names the call and its creator.
pub proof fn what_a_dismissal_reports(call: CallView, calls: Calls, steps: Seq<Step>, i: int)
    requires
        step_views(steps) == response(call, calls),
        0 <= i < steps.len(),
        steps[i] is Dismiss,
    ensures
        ({
            let told: Dismissal = steps[i]->Dismiss_0;
            &&& calls.contains_key(call.call_id)
            &&& calls[call.call_id].ring_devices.contains(told.to@)
            &&& told.to.user@ != call.from.user || told.to.server != call.from.server
                || told.to.device != call.from.device
            &&& told.call_id@ == call.call_id
            &&& told.call_creator@ == calls[call.call_id].call_creator
            &&& told.reason is Accepted ==> call.kind is Accept
            &&& told.reason is Rejected ==> call.kind is Reject
        }),
{
    let told = steps[i]->Dismiss_0;
    assert(step_views(steps)[i] == steps[i]@);
    assert(response(call, calls)[i] == StepView::Dismiss(told@));
    assert(response(call, calls).contains(StepView::Dismiss(told@)));
    crate::laws::siblings_are_dismissed(call, calls, told@);
}

/// The other steps that name a call, by the fields that they are read by.
pub proof fn what_the_other_steps_name(call: CallView, calls: Calls, steps: Seq<Step>, i: int)
    requires
        step_views(steps) == response(call, calls),
        0 <= i < steps.len(),
    ensures
        steps[i] matches Step::Rekey { call_id, answering } ==> {
            &&& call.kind is Accept
            &&& i == 0
            &&& call_id@ == call.call_id
            &&& answering@ == jid_text(call.from)
        },
        steps[i] matches Step::EndCall { call_id } ==> {
            &&& call.kind is Reject || call.kind is Terminate
            &&& i == steps.len() - 2
            &&& call_id@ == call.call_id
        },
{
    assert(step_views(steps)[i] == steps[i]@);
    assert(response(call, calls)[i] == steps[i]@);
    assert(response(call, calls).len() == steps.len());
    if call.kind is Accept || call.kind is Reject {
        let targets = dismiss_targets(calls, call.call_id);
        what_an_answer_comes_to(call, targets, calls.contains_key(call.call_id));
        let told = dismissals(call, targets);
        let first: int = if call.kind is Accept { 1 } else { 0 };
        if first <= i < first + told.len() {
            assert(response(call, calls)[first + (i - first)] == StepView::Dismiss(
                told[i - first],
            ));
        }
    }
}

/// The siblings of a device, as dismissals: the devices without that one, each with the rest of
/// the message.
proof fn lemma_siblings(
    call: CallView,
    call_creator: JidView,
    reason: Elsewhere,
    devices: Seq<JidView>,
)
    ensures
        devices.filter_map(|device: JidView| sibling(call, call_creator, reason, device))
            == devices.filter(
            |other: JidView|
                !(other.user == call.from.user && other.server == call.from.server && other.device
                    == call.from.device),
        ).map_values(
            |to: JidView| DismissalView { to, call_id: call.call_id, call_creator, reason },
        ),
    decreases devices.len(),
{
    let keep = |device: JidView| sibling(call, call_creator, reason, device);
    let differs = |other: JidView|
        !(other.user == call.from.user && other.server == call.from.server && other.device
            == call.from.device);
    let message = |to: JidView|
        DismissalView { to, call_id: call.call_id, call_creator, reason };
    reveal(Seq::filter);
    if devices.len() > 0 {
        lemma_siblings(call, call_creator, reason, devices.drop_last());
    }
    assert(devices.filter_map(keep) =~= devices.filter(differs).map_values(message));
}

/// The record of a call after a list of steps.
proof fn lemma_record_after(calls: Calls, steps: Seq<StepView>, id: Seq<char>)
    ensures
        calls_after_steps(calls, steps).contains_key(id) <==> calls.contains_key(id)
            && !exists|i: int|
            0 <= i < steps.len() && #[trigger] steps[i] == (StepView::EndCall { call_id: id }),
        calls_after_steps(calls, steps).contains_key(id) ==> calls_after_steps(calls, steps)[id]
            == (CallRecord {
            awaits_rekey: calls[id].awaits_rekey && !exists|i: int|
                0 <= i < steps.len() && #[trigger] steps[i] is Rekey && steps[i]->Rekey_call_id
                    == id,
            ..calls[id]
        }),
    decreases steps.len(),
{
    if steps.len() > 0 {
        let rest = steps.drop_last();
        lemma_record_after(calls, rest, id);
        assert(forall|i: int| 0 <= i < rest.len() ==> #[trigger] rest[i] == steps[i]);
        assert(forall|i: int|
            0 <= i < steps.len() ==> i == steps.len() - 1 || #[trigger] steps[i] == rest[i]);
        what_a_step_does(calls_after_steps(calls, rest), steps.last(), id);
    }
}

} // verus!
