//! What addresses, calls, steps and stanzas stand for: the fields behind each view, and how an
//! address is written.
use vstd::prelude::*;
use wacore::types::call::IncomingCall;
use wacore_binary::Jid as WireJid;
use wacore_binary::Node;
use crate::address::Jid;
use crate::address::JidView;
use crate::address::Server;
use crate::address::decimal;
use crate::address::jid_fields;
use crate::address::jid_text;
use crate::address::server_name;
use crate::address::suffix;
use crate::address::writes_agent;
use crate::call::Call;
use crate::call::outcome_view;
use crate::plan::MissedCall;
use crate::plan::Step;
use crate::plan::step_views;
use crate::registry::all_fields;
use crate::registry::targets_view;
use crate::registry::wire_targets;
use crate::stanza::Content;
use crate::stanza::Dismissal;
use crate::stanza::Elsewhere;
use crate::stanza::Value;
use crate::stanza::element;
use crate::stanza::own_view;
use crate::stanza::reason_text;
use crate::stanza::sent;
use crate::stanza::terminate_element;
use crate::stanza::wire_address;

verus! {

/// An address stands for its five fields, so two that stand for the same agree on all of them.
pub proof fn address_stands_for_its_fields(jid: Jid)
    ensures
        jid@.user == jid.user@,
        jid@.server == jid.server,
        jid@.agent == jid.agent,
        jid@.device == jid.device,
        jid@.integrator == jid.integrator,
{
}

/// A call stands for its seven fields. In particular its id is not that of the stanza, and its
/// sender is not its creator.
pub proof fn call_stands_for_its_fields(call: Call)
    ensures
        call@.from == call.from@,
        call@.stanza_id == call.stanza_id@,
        call@.timestamp == call.timestamp,
        call@.offline == call.offline,
        call@.kind == call.kind,
        call@.call_id == call.call_id@,
        call@.call_creator == call.call_creator@,
{
}

/// A missed call stands for its four fields.
pub proof fn missed_call_stands_for_its_fields(missed: MissedCall)
    ensures
        missed@.from == missed.from@,
        missed@.call_id == missed.call_id@,
        missed@.timestamp == missed.timestamp,
        missed@.reason == missed.reason,
{
}

/// A dismissal stands for its four fields.
pub proof fn dismissal_stands_for_its_fields(dismissal: Dismissal)
    ensures
        dismissal@.to == dismissal.to@,
        dismissal@.call_id == dismissal.call_id@,
        dismissal@.call_creator == dismissal.call_creator@,
        dismissal@.reason == dismissal.reason,
{
}

/// A step stands for one of the same kind with the same fields.
pub proof fn step_stands_for_its_fields(step: Step)
    ensures
        step is Missed <==> step@ is Missed,
        step is AckOffer <==> step@ is AckOffer,
        step is Rekey <==> step@ is Rekey,
        step is Dismiss <==> step@ is Dismiss,
        step is EndCall <==> step@ is EndCall,
        step is Deliver <==> step@ is Deliver,
        step matches Step::Missed(missed) ==> step@->Missed_0 == missed@,
        step matches Step::Rekey { call_id, answering } ==> step@->Rekey_call_id == call_id@
            && step@->answering == answering@,
        step matches Step::Dismiss(dismissal) ==> step@->Dismiss_0 == dismissal@,
        step matches Step::EndCall { call_id } ==> step@->EndCall_call_id == call_id@,
{
}

/// A list of steps stands for its steps, one for one and in order.
pub proof fn steps_stand_in_order(steps: Seq<Step>)
    ensures
        step_views(steps).len() == steps.len(),
        forall|i: int| 0 <= i < steps.len() ==> #[trigger] step_views(steps)[i] == steps[i]@,
{
}

/// A list of rung devices and a creator stand for the same, whether they are held as the library
/// or as the protocol crates write them: one for one and in order.
pub proof fn targets_stand_in_order(
    held: Option<(Jid, Vec<Jid>)>,
    wire: Option<(WireJid, Vec<WireJid>)>,
    jids: Seq<WireJid>,
)
    ensures
        all_fields(jids).len() == jids.len(),
        forall|i: int|
            0 <= i < jids.len() ==> #[trigger] all_fields(jids)[i] == jid_fields(jids[i]),
        held is Some <==> targets_view(held) is Some,
        held matches Some((creator, devices)) ==> {
            &&& targets_view(held) matches Some((by, rung))
            &&& by == creator@
            &&& rung.len() == devices@.len()
            &&& forall|i: int|
                0 <= i < devices@.len() ==> #[trigger] rung[i] == devices@[i]@
        },
        wire is Some <==> wire_targets(wire) is Some,
        wire matches Some((creator, devices)) ==> {
            &&& wire_targets(wire) matches Some((by, rung))
            &&& by == jid_fields(creator)
            &&& rung.len() == devices@.len()
            &&& forall|i: int|
                0 <= i < devices@.len() ==> #[trigger] rung[i] == jid_fields(
                    devices@[i],
                )
        },
{
}

/// What may be missing is missing on both sides, and stands for itself where it is there.
pub proof fn optional_values_stand_for_themselves(
    own: Option<Jid>,
    wire: Option<&WireJid>,
    node: Option<Node>,
)
    ensures
        own is Some <==> own_view(own) is Some,
        own matches Some(jid) ==> own_view(own)->0 == jid@,
        wire is Some <==> wire_address(wire) is Some,
        wire matches Some(jid) ==> wire_address(wire)->0 == jid_fields(*jid),
        node is Some <==> sent(node) is Some,
        node matches Some(stanza) ==> sent(node)->0 == element(stanza),
{
}

/// What the parser makes of a stanza is a failure exactly if it failed, and otherwise just what
/// it returned.
pub proof fn outcome_is_what_the_parser_returned(
    outcome: Result<Option<IncomingCall>, anyhow::Error>,
)
    ensures
        outcome_view(outcome) is Err <==> outcome is Err,
        outcome matches Ok(call) ==> outcome_view(outcome) == Ok::<Option<IncomingCall>, ()>(call),
{
}

/// The two outcomes that a device can be told of, and the words for them, which differ.
pub proof fn reasons_are_worded(reason: Elsewhere)
    ensures
        reason is Accepted ==> reason_text(reason) == "accepted_elsewhere"@,
        reason is Rejected ==> reason_text(reason) == "rejected_elsewhere"@,
        reason_text(Elsewhere::Accepted) != reason_text(Elsewhere::Rejected),
{
    reveal_strlit("accepted_elsewhere");
    reveal_strlit("rejected_elsewhere");
    assert("accepted_elsewhere"@[0] != "rejected_elsewhere"@[0]);
}

/// What the stanza says that ends a call for one device: whom it is for and under which id, and
/// inside which call, who created it and why.
pub proof fn what_a_terminate_says(
    to: JidView,
    id: Seq<char>,
    call_id: Seq<char>,
    call_creator: JidView,
    reason: Seq<char>,
)
    ensures
        ({
            let stanza = terminate_element(to, id, call_id, call_creator, reason);
            &&& stanza.tag == "call"@
            &&& stanza.attrs.len() == 2
            &&& stanza.attrs[0] == ("to"@, Value::Address(to))
            &&& stanza.attrs[1] == ("id"@, Value::Text(id))
            &&& stanza.content matches Content::Children(children)
            &&& children.len() == 1
            &&& children[0].tag == "terminate"@
            &&& children[0].attrs.len() == 3
            &&& children[0].attrs[0] == ("call-id"@, Value::Text(call_id))
            &&& children[0].attrs[1] == ("call-creator"@, Value::Address(call_creator))
            &&& children[0].attrs[2] == ("reason"@, Value::Text(reason))
            &&& children[0].content is Nothing
        }),
{
}

/// The names of the servers.
pub proof fn servers_are_named()
    ensures
        server_name(Server::Pn) == "s.whatsapp.net"@,
        server_name(Server::Lid) == "lid"@,
        server_name(Server::Group) == "g.us"@,
        server_name(Server::Broadcast) == "broadcast"@,
        server_name(Server::Newsletter) == "newsletter"@,
        server_name(Server::Hosted) == "hosted"@,
        server_name(Server::HostedLid) == "hosted.lid"@,
        server_name(Server::Messenger) == "msgr"@,
        server_name(Server::Interop) == "interop"@,
        server_name(Server::Bot) == "bot"@,
        server_name(Server::Legacy) == "c.us"@,
        server_name(Server::Call) == "call"@,
{
}

/// A number in decimal digits reads back as the number. It has only digits, at least one of them,
/// and starts with a zero only where it is zero.
pub proof fn decimal_reads_back(n: nat)
    ensures
        decimal(n).fold_left(0int, |value: int, c: char| 10 * value + (c as int - '0' as int)) == n,
        decimal(n).len() > 0,
        forall|i: int| 0 <= i < decimal(n).len() ==> '0' <= #[trigger] decimal(n)[i] <= '9',
        n > 0 ==> decimal(n)[0] != '0',
    decreases n,
{
    let read = |value: int, c: char| 10 * value + (c as int - '0' as int);
    let digits = decimal(n);
    reveal_with_fuel(Seq::fold_left, 2);
    if n < 10 {
        assert(digits.drop_last() =~= Seq::empty());
    } else {
        decimal_reads_back(n / 10);
        assert(digits.drop_last() =~= decimal(n / 10));
        assert(digits[0] == decimal(n / 10)[0]);
        assert(forall|i: int|
            0 <= i < digits.len() - 1 ==> #[trigger] digits[i] == decimal(n / 10)[i]);
    }
}

/// How an address is written. Without a user it is the bare server. Otherwise the user comes
/// first and the server last, behind an `@`; between them stand the agent, behind a dot, where it
/// is not zero and the server is none of the four that leave it out, and the device, behind a
/// colon, where it is not zero. The integrator is not written.
pub proof fn how_an_address_is_written(jid: JidView)
    ensures
        jid.user.len() == 0 ==> jid_text(jid) == server_name(jid.server),
        jid.user.len() > 0 ==> {
            let agent = if jid.agent == 0 || jid.server is Pn || jid.server is Lid || jid.server
                is Hosted || jid.server is HostedLid {
                Seq::<char>::empty()
            } else {
                seq!['.'] + decimal(jid.agent as nat)
            };
            let device = if jid.device == 0 {
                Seq::<char>::empty()
            } else {
                seq![':'] + decimal(jid.device as nat)
            };
            jid_text(jid) == jid.user + agent + device + seq!['@'] + server_name(jid.server)
        },
{
    reveal_strlit("@");
    assert("@"@ =~= seq!['@']);
}

/// The text of an address tells the devices of a user apart: where just the device number
/// differs, so does the text.
pub proof fn text_tells_devices_apart(jid: JidView, device: u16)
    requires
        jid.user.len() > 0,
        device != jid.device,
    ensures
        jid_text(JidView { device, ..jid }) != jid_text(jid),
{
    let agent: nat = if writes_agent(jid.server) {
        jid.agent as nat
    } else {
        0
    };
    let head = jid.user + suffix('.', agent);
    let tail = "@"@ + server_name(jid.server);
    let a = suffix(':', jid.device as nat);
    let b = suffix(':', device as nat);
    assert(jid_text(jid) =~= head + a + tail);
    assert(jid_text(JidView { device, ..jid }) =~= head + b + tail);
    if head + a + tail == head + b + tail {
        assert((head + a + tail).len() == head.len() + a.len() + tail.len());
        assert((head + b + tail).len() == head.len() + b.len() + tail.len());
        assert((head + a + tail).subrange(head.len() as int, (head.len() + a.len()) as int) =~= a);
        assert((head + b + tail).subrange(head.len() as int, (head.len() + b.len()) as int) =~= b);
        assert(a == b);
        decimal_reads_back(jid.device as nat);
        decimal_reads_back(device as nat);
        assert(jid.device > 0 && device > 0);
        assert(a.drop_first() =~= decimal(jid.device as nat));
        assert(b.drop_first() =~= decimal(device as nat));
    }
}

} // verus!
