//! What holds of the handler as a whole.
//!
//! `response` is what `CallHandler::respond` decides and `calls_after` the registry it leaves;
//! `calls_settled` is the registry once the steps have been performed too.
use vstd::prelude::*;
use wacore::voip::CallRegistry;
use crate::address::JidView;
use crate::address::jid_text;
use crate::address::names_same_device;
use crate::call::CallKind;
use crate::call::CallView;
use crate::plan::MissedReason;
use crate::plan::StepView;
use crate::plan::calls_after;
use crate::plan::calls_after_step;
use crate::plan::calls_after_steps;
use crate::plan::calls_settled;
use crate::plan::decided;
use crate::plan::dismiss_steps;
use crate::plan::dismissals;
use crate::plan::missed;
use crate::plan::response;
use crate::plan::sibling;
use crate::registry::Calls;
use crate::registry::CallRecord;
use crate::registry::dismiss_targets;
use crate::registry::rekeyed;
use crate::registry::without_rekey;
use crate::stanza::Content;
use crate::stanza::DismissalView;
use crate::stanza::Elsewhere;
use crate::stanza::Value;
use crate::stanza::answering_address;
use crate::stanza::reason_text;
use crate::stanza::terminate_element;

verus! {

/// Naming the same device is an equivalence.
pub proof fn same_device_is_an_equivalence(a: JidView, b: JidView, c: JidView)
    ensures
        names_same_device(a, a),
        names_same_device(a, b) ==> names_same_device(b, a),
        names_same_device(a, b) && names_same_device(b, c) ==> names_same_device(a, c),
{
}

/// Two addresses name the same device exactly if they agree on the user, on the server and on the
/// device number, whatever the server is. So two numbers are two devices.
pub proof fn same_device_is_user_server_and_number(a: JidView, b: JidView)
    ensures
        names_same_device(a, b) ==> a.user == b.user,
        names_same_device(a, b) ==> a.server == b.server,
        names_same_device(a, b) ==> a.device == b.device,
        a.user == b.user && a.server == b.server && a.device == b.device ==> names_same_device(
            a,
            b,
        ),
{
}

/// The agent and the integrator of an address do not bear on which device it names.
pub proof fn same_device_ignores_spelling(a: JidView, b: JidView, agent: u8, integrator: u16)
    ensures
        names_same_device(JidView { agent, integrator, ..a }, b) == names_same_device(a, b),
        names_same_device(b, JidView { agent, integrator, ..a }) == names_same_device(b, a),
{
}

/// An offer that was replayed from the offline queue neither rings nor is acknowledged: it is
/// reported as missed, and that is all.
pub proof fn offline_offer_is_only_missed(call: CallView, calls: Calls)
    requires
        call.kind is Offer,
        call.offline,
    ensures
        response(call, calls) == seq![missed(call, MissedReason::Offline)],
        response(call, calls).len() == 1,
        response(call, calls)[0] is Missed,
        response(call, calls)[0]->Missed_0.from == call.from,
        response(call, calls)[0]->Missed_0.call_id == call.call_id,
        response(call, calls)[0]->Missed_0.timestamp == call.timestamp,
        response(call, calls)[0]->Missed_0.reason is Offline,
        !response(call, calls).contains(StepView::AckOffer),
        !response(call, calls).contains(StepView::Deliver),
        calls_settled(call, calls) == calls,
{
    lemma_settled(call, calls);
}

/// A receipt goes out for every offer that came while we were online and for nothing else. It
/// goes out once and before anything else is done.
pub proof fn live_offers_are_acknowledged(call: CallView, calls: Calls)
    ensures
        call.kind is Offer && !call.offline ==> {
            &&& response(call, calls).len() > 0
            &&& response(call, calls)[0] == StepView::AckOffer
        },
        forall|i: int|
            0 <= i < response(call, calls).len() && #[trigger] response(call, calls)[i]
                is AckOffer ==> call.kind is Offer && !call.offline && i == 0,
{
}

/// Every call but a replayed offer is reported, once and after everything else is done. A
/// replayed offer is not.
pub proof fn calls_are_delivered_once_and_last(call: CallView, calls: Calls)
    ensures
        !(call.kind is Offer && call.offline) ==> {
            &&& response(call, calls).len() > 0
            &&& response(call, calls).last() == StepView::Deliver
        },
        forall|i: int|
            0 <= i < response(call, calls).len() && #[trigger] response(call, calls)[i]
                is Deliver ==> !(call.kind is Offer && call.offline) && i == response(
                call,
                calls,
            ).len() - 1,
{
}

/// A call is reported as missed when its offer was replayed, or when the peer ended it and it
/// is not ongoing; and in no other case. The report comes first. It names the sender of the
/// stanza, the id of the call and the time of the stanza, and says which of the two it was.
pub proof fn missed_calls(call: CallView, calls: Calls)
    ensures
        call.kind is Offer && call.offline ==> response(call, calls)[0] == missed(
            call,
            MissedReason::Offline,
        ),
        call.kind is Terminate && !calls.contains_key(call.call_id) ==> response(call, calls)[0]
            == missed(call, MissedReason::Remote),
        forall|i: int|
            0 <= i < response(call, calls).len() && #[trigger] response(call, calls)[i]
                is Missed ==> {
                &&& i == 0
                &&& (call.kind is Offer && call.offline) || (call.kind is Terminate
                    && !calls.contains_key(call.call_id))
                &&& response(call, calls)[i]->Missed_0.from == call.from
                &&& response(call, calls)[i]->Missed_0.call_id == call.call_id
                &&& response(call, calls)[i]->Missed_0.timestamp == call.timestamp
                &&& response(call, calls)[i]->Missed_0.reason is Offline <==> call.kind is Offer
                &&& response(call, calls)[i]->Missed_0.reason is Remote <==> call.kind is Terminate
            },
        (call.kind is Offer && call.offline) || (call.kind is Terminate && !calls.contains_key(
            call.call_id,
        )) ==> response(call, calls).len() > 0 && response(call, calls)[0] is Missed,
{
}

/// The media side is told the address of the answering device on every accept and on nothing
/// else. That happens once and before anything else is done.
pub proof fn accepts_rekey_first(call: CallView, calls: Calls)
    ensures
        call.kind is Accept ==> response(call, calls)[0] == (StepView::Rekey {
            call_id: call.call_id,
            answering: jid_text(call.from),
        }),
        forall|i: int|
            0 <= i < response(call, calls).len() && #[trigger] response(call, calls)[i]
                is Rekey ==> call.kind is Accept && i == 0,
{
}

/// What the media side of an accepted call is handed is the address of the device that answered,
/// in its text form: that is what performing the first step makes of the registry.
pub proof fn answering_address_is_handed_on(
    call: CallView,
    calls: Calls,
    before: CallRegistry,
    after: CallRegistry,
)
    requires
        call.kind is Accept,
        response(call, calls)[0] matches StepView::Rekey { call_id, answering } ==> after
            == rekeyed(before, call_id, answering),
    ensures
        after == rekeyed(before, call.call_id, jid_text(call.from)),
{
    accepts_rekey_first(call, calls);
}

/// Only the address that we answer a caller under bears on the receipt: our phone number does not
/// where the caller is at a LID, and our LID does not for anyone else.
pub proof fn other_address_is_not_used(
    caller: JidView,
    lid: Option<JidView>,
    pn: Option<JidView>,
)
    ensures
        caller.server is Lid ==> answering_address(caller, lid, pn) == lid,
        !(caller.server is Lid) ==> answering_address(caller, lid, pn) == pn,
        caller.server is Lid ==> answering_address(caller, lid, None) == answering_address(
            caller,
            lid,
            pn,
        ),
        !(caller.server is Lid) ==> answering_address(caller, None, pn) == answering_address(
            caller,
            lid,
            pn,
        ),
{
}

/// A device is dismissed exactly if the call rang it, one of the devices has accepted or
/// rejected, and it is not that one. It is told about this call and the right outcome.
pub proof fn siblings_are_dismissed(call: CallView, calls: Calls, dismissal: DismissalView)
    ensures
        response(call, calls).contains(StepView::Dismiss(dismissal)) <==> {
            &&& (call.kind is Accept && dismissal.reason is Accepted) || (call.kind is Reject
                && dismissal.reason is Rejected)
            &&& calls.contains_key(call.call_id)
            &&& calls[call.call_id].ring_devices.contains(dismissal.to)
            &&& !(dismissal.to.user == call.from.user && dismissal.to.server == call.from.server
                && dismissal.to.device == call.from.device)
            &&& dismissal.call_id == call.call_id
            &&& dismissal.call_creator == calls[call.call_id].call_creator
        },
{
    let targets = dismiss_targets(calls, call.call_id);
    let steps = response(call, calls);
    let told = dismiss_steps(call, targets);
    let step = StepView::Dismiss(dismissal);
    assert(steps.contains(step) <==> told.contains(step)) by {
        if steps.contains(step) {
            let i = choose|i: int| 0 <= i < steps.len() && steps[i] == step;
            let shift: int = if call.kind is Accept { 1 } else { 0 };
            assert(told[i - shift] == step);
        }
        if told.contains(step) {
            let i = choose|i: int| 0 <= i < told.len() && told[i] == step;
            let shift: int = if call.kind is Accept { 1 } else { 0 };
            assert(dismissals(call, targets).len() > 0);
            assert(steps[i + shift] == step);
        }
    }
    let list = dismissals(call, targets);
    assert(told.contains(step) <==> list.contains(dismissal)) by {
        if told.contains(step) {
            let i = choose|i: int| 0 <= i < told.len() && told[i] == step;
            assert(list[i] == dismissal);
        }
        if list.contains(dismissal) {
            let i = choose|i: int| 0 <= i < list.len() && list[i] == dismissal;
            assert(told[i] == step);
        }
    }
    if let (Some(reason), Some((creator, devices))) = (decided(call.kind), targets) {
        let keep = |device: JidView| sibling(call, creator, reason, device);
        assert(list == devices.filter_map(keep));
        if list.contains(dismissal) {
            devices.lemma_filter_map_contains(keep, dismissal);
        }
        if devices.contains(dismissal.to) && keep(dismissal.to) == Some(dismissal) {
            lemma_filter_map_keeps(devices, keep, dismissal.to, dismissal);
        }
    }
}

/// The devices that a list of steps dismisses, in order.
pub open spec fn dismissed(steps: Seq<StepView>) -> Seq<JidView> {
    steps.filter(|s: StepView| s is Dismiss).map_values(|s: StepView| s->Dismiss_0.to)
}

/// The devices of a list that are not the given one, in order.
pub open spec fn other_devices(devices: Seq<JidView>, device: JidView) -> Seq<JidView> {
    devices.filter(
        |other: JidView|
            !(other.user == device.user && other.server == device.server && other.device
                == device.device),
    )
}

/// Each time that a device was rung it is dismissed once, in the order in which the devices were
/// rung, and the device that accepted or rejected is left out.
pub proof fn siblings_are_dismissed_in_order(call: CallView, calls: Calls)
    requires
        call.kind is Accept || call.kind is Reject,
        calls.contains_key(call.call_id),
    ensures
        dismissed(response(call, calls)) == other_devices(
            calls[call.call_id].ring_devices,
            call.from,
        ),
        response(call, calls).filter(|s: StepView| s is Dismiss).map_values(
            |s: StepView| s->Dismiss_0.to,
        ) == calls[call.call_id].ring_devices.filter(
            |other: JidView|
                !(other.user == call.from.user && other.server == call.from.server && other.device
                    == call.from.device),
        ),
{
    lemma_dismiss_part(call, calls);
    lemma_told_to(call, calls);
}

/// The rung devices are used up by the first answer: whatever comes about the same call once a
/// device has accepted or rejected it, nobody is dismissed any more. That holds as soon as it
/// is decided what is done about the answer, and after it has been done.
pub proof fn siblings_are_dismissed_once(
    answer: CallView,
    later: CallView,
    calls: Calls,
    dismissal: DismissalView,
)
    requires
        answer.kind is Accept || answer.kind is Reject,
        later.call_id == answer.call_id,
    ensures
        dismiss_targets(calls_after(answer, calls), answer.call_id) is None,
        dismiss_targets(calls_settled(answer, calls), answer.call_id) is None,
        !response(later, calls_after(answer, calls)).contains(StepView::Dismiss(dismissal)),
        !response(later, calls_settled(answer, calls)).contains(StepView::Dismiss(dismissal)),
{
    lemma_settled(answer, calls);
    siblings_are_dismissed(later, calls_after(answer, calls), dismissal);
    siblings_are_dismissed(later, calls_settled(answer, calls), dismissal);
}

/// Where there is no device to dismiss, because the call is not registered, rang nobody or has
/// been answered already, nobody is dismissed and the registry stays as it was.
pub proof fn nothing_to_dismiss(call: CallView, calls: Calls, dismissal: DismissalView)
    requires
        dismiss_targets(calls, call.call_id) is None,
    ensures
        !response(call, calls).contains(StepView::Dismiss(dismissal)),
        calls_after(call, calls) == calls,
{
    siblings_are_dismissed(call, calls, dismissal);
    if calls.contains_key(call.call_id) {
        let record = calls[call.call_id];
        assert(record.ring_devices =~= Seq::empty());
        assert(calls.insert(call.call_id, record) =~= calls);
    }
    assert(calls_after(call, calls) =~= calls);
}

/// A reject or a terminate ends the call: it is no longer ongoing once everything is done. The
/// devices of a rejected call are dismissed before that, and the call is reported after it.
pub proof fn reject_and_terminate_end_the_call(call: CallView, calls: Calls)
    requires
        call.kind is Reject || call.kind is Terminate,
    ensures
        !calls_settled(call, calls).contains_key(call.call_id),
        response(call, calls).len() >= 2,
        response(call, calls)[response(call, calls).len() - 2] == (StepView::EndCall {
            call_id: call.call_id,
        }),
{
    lemma_settled(call, calls);
}

/// Nothing but a reject or a terminate ends a call.
pub proof fn other_calls_go_on(call: CallView, calls: Calls)
    requires
        !(call.kind is Reject || call.kind is Terminate),
    ensures
        calls_settled(call, calls).dom() == calls.dom(),
        forall|i: int|
            0 <= i < response(call, calls).len() ==> !(#[trigger] response(call, calls)[i]
                is EndCall),
{
    lemma_settled(call, calls);
    assert(calls_settled(call, calls).dom() =~= calls.dom());
}

/// An accepted call stays ongoing, under the same registration. All that changes is that the
/// devices that it rang are used up and that its media side no longer waits to hear who answered.
pub proof fn accepted_call_stays_registered(call: CallView, calls: Calls)
    requires
        call.kind is Accept,
        calls.contains_key(call.call_id),
    ensures
        calls_settled(call, calls).contains_key(call.call_id),
        calls_settled(call, calls)[call.call_id] == (CallRecord {
            ring_devices: Seq::empty(),
            awaits_rekey: false,
            ..calls[call.call_id]
        }),
{
    lemma_settled(call, calls);
}

/// The media side of a call is told once who answered: the first accept uses that up. Whatever
/// comes about the same call once an accept has been dealt with, telling it again changes nothing.
pub proof fn rekey_is_one_shot(accept: CallView, later: Seq<char>, calls: Calls)
    requires
        accept.kind is Accept,
    ensures
        calls_settled(accept, calls).contains_key(accept.call_id) ==> !calls_settled(
            accept,
            calls,
        )[accept.call_id].awaits_rekey,
        calls_after_step(
            calls_settled(accept, calls),
            StepView::Rekey { call_id: accept.call_id, answering: later },
        ) == calls_settled(accept, calls),
{
    lemma_settled(accept, calls);
    rekey_needs_a_waiting_call(accept.call_id, later, calls_settled(accept, calls));
}

/// Telling who answered changes nothing where nobody waits to hear it: for a call that is not
/// registered, or one that has no media side waiting, as a call that we did not place.
pub proof fn rekey_needs_a_waiting_call(call_id: Seq<char>, answering: Seq<char>, calls: Calls)
    requires
        calls.contains_key(call_id) ==> !calls[call_id].awaits_rekey,
    ensures
        calls_after_step(calls, StepView::Rekey { call_id, answering }) == calls,
{
    if calls.contains_key(call_id) {
        let record = calls[call_id];
        assert(record == (CallRecord { awaits_rekey: false, ..record }));
        assert(calls.insert(call_id, record) =~= calls);
    }
}

/// A stanza about one call leaves every other call as it was, while it is decided what is done
/// and after it has been done.
pub proof fn calls_do_not_interfere(call: CallView, calls: Calls, other: Seq<char>)
    requires
        other != call.call_id,
    ensures
        calls_after(call, calls).contains_key(other) == calls.contains_key(other),
        calls_settled(call, calls).contains_key(other) == calls.contains_key(other),
        calls.contains_key(other) ==> {
            &&& calls_after(call, calls)[other] == calls[other]
            &&& calls_settled(call, calls)[other] == calls[other]
        },
{
    lemma_settled(call, calls);
}

/// A terminate for a call that has been rejected or terminated before is reported as missed,
/// since the call is no longer ongoing.
pub proof fn terminate_after_the_end_is_missed(first: CallView, second: CallView, calls: Calls)
    requires
        first.kind is Reject || first.kind is Terminate,
        second.kind is Terminate,
        second.call_id == first.call_id,
    ensures
        response(second, calls_settled(first, calls))[0] == missed(second, MissedReason::Remote),
{
    lemma_settled(first, calls);
}

/// A dismissal goes to the one device that it names, under an id of its own. It holds a single
/// `<terminate>`, which carries the reason and has nothing in it, so no list of destinations
/// either.
pub proof fn dismissal_goes_to_one_device(dismissal: DismissalView, id: Seq<char>)
    ensures
        ({
            let stanza = terminate_element(
                dismissal.to,
                id,
                dismissal.call_id,
                dismissal.call_creator,
                reason_text(dismissal.reason),
            );
            &&& stanza.tag == "call"@
            &&& stanza.attrs.contains(("to"@, Value::Address(dismissal.to)))
            &&& stanza.attrs.contains(("id"@, Value::Text(id)))
            &&& stanza.content matches Content::Children(children)
            &&& children.len() == 1
            &&& children[0].tag == "terminate"@
            &&& children[0].attrs.contains(
                ("reason"@, Value::Text(reason_text(dismissal.reason))),
            )
            &&& children[0].content is Nothing
            &&& stanza.attrs.len() == 2
            &&& children[0].attrs.len() == 3
            &&& children[0].attrs.contains(("call-id"@, Value::Text(dismissal.call_id)))
            &&& children[0].attrs.contains(
                ("call-creator"@, Value::Address(dismissal.call_creator)),
            )
            &&& dismissal.reason is Accepted ==> children[0].attrs.contains(
                ("reason"@, Value::Text("accepted_elsewhere"@)),
            )
            &&& dismissal.reason is Rejected ==> children[0].attrs.contains(
                ("reason"@, Value::Text("rejected_elsewhere"@)),
            )
        }),
{
    let stanza = terminate_element(
        dismissal.to,
        id,
        dismissal.call_id,
        dismissal.call_creator,
        reason_text(dismissal.reason),
    );
    assert(stanza.attrs[0] == ("to"@, Value::Address(dismissal.to)));
    assert(stanza.attrs[1] == ("id"@, Value::Text(id)));
    assert(stanza.content->Children_0[0].attrs[0] == ("call-id"@, Value::Text(dismissal.call_id)));
    assert(stanza.content->Children_0[0].attrs[1] == (
        "call-creator"@,
        Value::Address(dismissal.call_creator),
    ));
    assert(stanza.content->Children_0[0].attrs[2] == (
        "reason"@,
        Value::Text(reason_text(dismissal.reason)),
    ));
}

/// The steps of an answer that dismiss devices are its dismissals.
proof fn lemma_dismiss_part(call: CallView, calls: Calls)
    requires
        call.kind is Accept || call.kind is Reject,
    ensures
        response(call, calls).filter(|s: StepView| s is Dismiss) == dismiss_steps(
            call,
            dismiss_targets(calls, call.call_id),
        ),
{
    let told = dismiss_steps(call, dismiss_targets(calls, call.call_id));
    let is_dismiss = |s: StepView| s is Dismiss;
    let rekey = StepView::Rekey { call_id: call.call_id, answering: jid_text(call.from) };
    let end = StepView::EndCall { call_id: call.call_id };
    if call.kind is Accept {
        lemma_filter_middle(seq![rekey], told, seq![StepView::Deliver], is_dismiss);
    } else {
        let nothing = Seq::<StepView>::empty();
        assert(nothing + told =~= told);
        lemma_filter_middle(nothing, told, seq![end, StepView::Deliver], is_dismiss);
    }
}

/// A filter that lets just the middle part pass.
proof fn lemma_filter_middle<A>(a: Seq<A>, b: Seq<A>, c: Seq<A>, p: spec_fn(A) -> bool)
    requires
        forall|i: int| 0 <= i < a.len() ==> !p(#[trigger] a[i]),
        forall|i: int| 0 <= i < b.len() ==> p(#[trigger] b[i]),
        forall|i: int| 0 <= i < c.len() ==> !p(#[trigger] c[i]),
    ensures
        (a + b + c).filter(p) == b,
{
    Seq::filter_distributes_over_add(a + b, c, p);
    Seq::filter_distributes_over_add(a, b, p);
    lemma_filter_none(a, p);
    lemma_filter_all(b, p);
    lemma_filter_none(c, p);
    assert((a + b + c).filter(p) =~= b);
}

/// The dismissals of an answer go to the rung devices without the one that answered.
proof fn lemma_told_to(call: CallView, calls: Calls)
    requires
        call.kind is Accept || call.kind is Reject,
        calls.contains_key(call.call_id),
    ensures
        dismiss_steps(call, dismiss_targets(calls, call.call_id)).map_values(
            |s: StepView| s->Dismiss_0.to,
        ) == other_devices(calls[call.call_id].ring_devices, call.from),
{
    let targets = dismiss_targets(calls, call.call_id);
    let record = calls[call.call_id];
    let list = dismissals(call, targets);
    assert(dismiss_steps(call, targets).map_values(|s: StepView| s->Dismiss_0.to)
        =~= list.map_values(|d: DismissalView| d.to));
    if record.ring_devices.len() > 0 {
        lemma_siblings_to(call, record.call_creator, decided(call.kind)->0, record.ring_devices);
    } else {
        lemma_filter_none(
            record.ring_devices,
            |other: JidView|
                !(other.user == call.from.user && other.server == call.from.server && other.device
                    == call.from.device),
        );
        assert(list.map_values(|d: DismissalView| d.to) =~= Seq::empty());
    }
}

/// The addressees of the siblings of a device are the devices without that one.
proof fn lemma_siblings_to(
    call: CallView,
    call_creator: JidView,
    reason: Elsewhere,
    devices: Seq<JidView>,
)
    ensures
        devices.filter_map(
            |device: JidView| sibling(call, call_creator, reason, device),
        ).map_values(|d: DismissalView| d.to) == other_devices(devices, call.from),
    decreases devices.len(),
{
    let keep = |device: JidView| sibling(call, call_creator, reason, device);
    let to = |d: DismissalView| d.to;
    reveal(Seq::filter);
    if devices.len() > 0 {
        let rest = devices.drop_last();
        lemma_siblings_to(call, call_creator, reason, rest);
        assert(devices.filter_map(keep).map_values(to) =~= other_devices(devices, call.from));
    } else {
        assert(devices.filter_map(keep).map_values(to) =~= other_devices(devices, call.from));
    }
}

/// A filter that everything passes changes nothing.
proof fn lemma_filter_all<A>(s: Seq<A>, p: spec_fn(A) -> bool)
    requires
        forall|i: int| 0 <= i < s.len() ==> p(#[trigger] s[i]),
    ensures
        s.filter(p) == s,
    decreases s.len(),
{
    reveal(Seq::filter);
    if s.len() > 0 {
        let rest = s.drop_last();
        assert forall|i: int| 0 <= i < rest.len() implies p(#[trigger] rest[i]) by {
            assert(rest[i] == s[i]);
        }
        lemma_filter_all(rest, p);
        assert(p(s[s.len() - 1]));
        assert(s =~= rest.push(s.last()));
    } else {
        assert(s.filter(p) =~= s);
    }
}

/// A filter that nothing passes leaves nothing.
proof fn lemma_filter_none<A>(s: Seq<A>, p: spec_fn(A) -> bool)
    requires
        forall|i: int| 0 <= i < s.len() ==> !p(#[trigger] s[i]),
    ensures
        s.filter(p) == Seq::<A>::empty(),
    decreases s.len(),
{
    reveal(Seq::filter);
    if s.len() > 0 {
        let rest = s.drop_last();
        assert forall|i: int| 0 <= i < rest.len() implies !p(#[trigger] rest[i]) by {
            assert(rest[i] == s[i]);
        }
        lemma_filter_none(rest, p);
        assert(!p(s[s.len() - 1]));
    } else {
        assert(s.filter(p) =~= Seq::empty());
    }
}

/// What an element is mapped to is in the result.
proof fn lemma_filter_map_keeps<A, B>(s: Seq<A>, f: spec_fn(A) -> Option<B>, a: A, b: B)
    requires
        s.contains(a),
        f(a) == Some(b),
    ensures
        s.filter_map(f).contains(b),
    decreases s.len(),
{
    let rest = s.drop_last();
    let kept = s.filter_map(f);
    if s.last() == a {
        assert(kept[kept.len() - 1] == b);
    } else {
        let i = choose|i: int| 0 <= i < s.len() && s[i] == a;
        assert(rest[i] == a);
        lemma_filter_map_keeps(rest, f, a, b);
        let j = choose|j: int| 0 <= j < rest.filter_map(f).len() && rest.filter_map(f)[j] == b;
        assert(kept[j] == b);
    }
}

/// Steps that leave the registry alone.
proof fn lemma_quiet_steps(calls: Calls, steps: Seq<StepView>)
    requires
        forall|i: int|
            0 <= i < steps.len() ==> !(#[trigger] steps[i] is EndCall) && !(steps[i] is Rekey),
    ensures
        calls_after_steps(calls, steps) == calls,
    decreases steps.len(),
{
    if steps.len() > 0 {
        let rest = steps.drop_last();
        assert forall|i: int| 0 <= i < rest.len() implies !(#[trigger] rest[i] is EndCall) && !(
        rest[i] is Rekey) by {
            assert(rest[i] == steps[i]);
        }
        lemma_quiet_steps(calls, rest);
    }
}

/// Performing two lists one after the other.
proof fn lemma_steps_add(calls: Calls, a: Seq<StepView>, b: Seq<StepView>)
    ensures
        calls_after_steps(calls, a + b) == calls_after_steps(calls_after_steps(calls, a), b),
    decreases b.len(),
{
    if b.len() > 0 {
        lemma_steps_add(calls, a, b.drop_last());
        assert((a + b).drop_last() =~= a + b.drop_last());
    } else {
        assert(a + b =~= a);
    }
}

/// The registry once everything is done about a call.
proof fn lemma_settled(call: CallView, calls: Calls)
    ensures
        call.kind is Accept ==> calls_settled(call, calls) == without_rekey(
            calls_after(call, calls),
            call.call_id,
        ),
        call.kind is Reject || call.kind is Terminate ==> calls_settled(call, calls)
            == calls_after(call, calls).remove(call.call_id),
        call.kind is Offer || call.kind is Other ==> calls_settled(call, calls) == calls_after(
            call,
            calls,
        ),
{
    let steps = response(call, calls);
    let start = calls_after(call, calls);
    let told = dismiss_steps(call, dismiss_targets(calls, call.call_id));
    let end = StepView::EndCall { call_id: call.call_id };
    match call.kind {
        CallKind::Accept => {
            let rekey = StepView::Rekey { call_id: call.call_id, answering: jid_text(call.from) };
            let first = seq![rekey];
            let rest = told + seq![StepView::Deliver];
            assert(steps =~= first + rest);
            lemma_steps_add(start, first, rest);
            assert(first.drop_last() =~= Seq::empty());
            assert(calls_after_steps(start, first.drop_last()) == start);
            assert(calls_after_steps(start, first) == calls_after_step(start, rekey));
            lemma_quiet_steps(without_rekey(start, call.call_id), rest);
        },
        CallKind::Reject | CallKind::Terminate => {
            let before = steps.take(steps.len() - 2);
            assert(steps.drop_last().drop_last() =~= before);
            assert(steps.drop_last().last() == end);
            lemma_quiet_steps(start, before);
            assert(calls_after_steps(start, steps.drop_last()) == calls_after_step(start, end));
        },
        _ => {
            lemma_quiet_steps(start, steps);
        },
    }
}

} // verus!
