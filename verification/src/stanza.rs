//! Stanzas that the client sends in answer to a call.
use vstd::prelude::*;
use wacore::stanza::call::TerminateParams;
use wacore::types::call::IncomingCall;
use wacore_binary::Jid as WireJid;
use wacore_binary::Node;
use crate::address::Jid;
use crate::address::JidView;
use crate::address::Server;
use crate::address::jid_fields;
use crate::call::Call;
use crate::call::CallView;
use crate::call::call_fields;

verus! {

/// The value of an attribute.
pub enum Value {
    Text(Seq<char>),
    Address(JidView),
}

/// What stands between the start and the end of an element.
pub enum Content {
    Nothing,
    Bytes(Seq<u8>),
    Text(Seq<char>),
    Children(Seq<Element>),
}

/// A stanza, or a part of one, with its attributes in order.
pub struct Element {
    pub tag: Seq<char>,
    pub attrs: Seq<(Seq<char>, Value)>,
    pub content: Content,
}

/// `wacore_binary::Node`, a stanza that can be sent.
#[verifier::external_type_specification]
#[verifier::external_body]
pub struct ExNode(Node);

/// The tag, the attributes and the content that a `wacore_binary::Node` holds.
pub uninterp spec fn element(node: Node) -> Element;

/// `<offer call-id call-creator/>`, which names the call of a receipt.
pub open spec fn offer_mention(call: CallView) -> Element {
    Element {
        tag: "offer"@,
        attrs: seq![
            ("call-id"@, Value::Text(call.call_id)),
            ("call-creator"@, Value::Address(call.call_creator)),
        ],
        content: Content::Nothing,
    }
}

/// `<receipt to id [from]><offer/></receipt>`, which tells the caller that the offer arrived.
pub open spec fn offer_receipt(call: CallView, own: Option<JidView>) -> Element {
    let addressed = seq![("to"@, Value::Address(call.from)), ("id"@, Value::Text(call.stanza_id))];
    Element {
        tag: "receipt"@,
        attrs: match own {
            Some(jid) => addressed.push(("from"@, Value::Address(jid))),
            None => addressed,
        },
        content: Content::Children(seq![offer_mention(call)]),
    }
}

/// `<call to id><terminate call-id call-creator reason/></call>`, which ends a call for one
/// device.
pub open spec fn terminate_element(
    to: JidView,
    id: Seq<char>,
    call_id: Seq<char>,
    call_creator: JidView,
    reason: Seq<char>,
) -> Element {
    Element {
        tag: "call"@,
        attrs: seq![("to"@, Value::Address(to)), ("id"@, Value::Text(id))],
        content: Content::Children(
            seq![
                Element {
                    tag: "terminate"@,
                    attrs: seq![
                        ("call-id"@, Value::Text(call_id)),
                        ("call-creator"@, Value::Address(call_creator)),
                        ("reason"@, Value::Text(reason)),
                    ],
                    content: Content::Nothing,
                },
            ],
        ),
    }
}

/// The receipt for a call, if it is an offer.
pub open spec fn receipt_for(call: CallView, own: Option<JidView>) -> Option<Element> {
    if call.kind is Offer {
        Some(offer_receipt(call, own))
    } else {
        None
    }
}

/// A stanza to send, if there is one, by what it holds.
pub open spec fn sent(node: Option<Node>) -> Option<Element> {
    match node {
        Some(node) => Some(element(node)),
        None => None,
    }
}

/// An address, if there is one, by what it holds.
pub open spec fn wire_address(jid: Option<&WireJid>) -> Option<JidView> {
    match jid {
        Some(jid) => Some(jid_fields(*jid)),
        None => None,
    }
}

/// `wacore::stanza::call::build_offer_ack_receipt`. Claimed: for an offer it builds
/// `<receipt to=caller id=stanza_id [from=own]><offer call-id call-creator/></receipt>`, and
/// nothing for any other call.
#[verifier::external_body]
fn build_offer_ack_receipt(call: &IncomingCall, own: Option<&WireJid>) -> (r: Option<Node>)
    ensures
        sent(r) == receipt_for(call_fields(*call), wire_address(own)),
{
    wacore::stanza::call::build_offer_ack_receipt(call, own)
}

/// `wacore::stanza::call::build_terminate`, with an id and a reason. Claimed: it builds
/// `<call to id><terminate call-id call-creator reason/></call>`.
#[verifier::external_body]
fn build_terminate(
    to: &WireJid,
    id: &str,
    call_id: &str,
    call_creator: &WireJid,
    reason: &str,
) -> (r: Node)
    ensures
        element(r) == terminate_element(
            jid_fields(*to),
            id@,
            call_id@,
            jid_fields(*call_creator),
            reason@,
        ),
{
    wacore::stanza::call::build_terminate(&TerminateParams {
        call_id,
        to,
        id: Some(id),
        call_creator,
        reason: Some(reason),
    })
}

/// An address of ours, if we have one.
pub open spec fn own_view(jid: Option<Jid>) -> Option<JidView> {
    match jid {
        Some(jid) => Some(jid@),
        None => None,
    }
}

/// The address that we answer a caller under: our LID for a caller at a LID, our phone number
/// for everyone else.
pub open spec fn answering_address(
    caller: JidView,
    lid: Option<JidView>,
    pn: Option<JidView>,
) -> Option<JidView> {
    if caller.server is Lid {
        lid
    } else {
        pn
    }
}

/// Whether we answer the caller under our LID, and so need no other address of ours.
pub fn answers_under_lid(call: &IncomingCall) -> (r: bool)
    ensures
        r == (call_fields(*call).from.server is Lid),
{
    match Call::read(call).from.server {
        Server::Lid => true,
        _ => false,
    }
}

/// The receipt that tells the caller that an offer arrived; nothing for any other call.
pub fn offer_ack_receipt(call: &IncomingCall, lid: &Option<Jid>, pn: &Option<Jid>) -> (r: Option<
    Node,
>)
    ensures
        sent(r) == receipt_for(
            call_fields(*call),
            answering_address(
                call_fields(*call).from,
                own_view(*lid),
                own_view(*pn),
            ),
        ),
{
    let own = if answers_under_lid(call) {
        lid
    } else {
        pn
    };
    match own {
        Some(jid) => build_offer_ack_receipt(call, Some(&jid.write())),
        None => build_offer_ack_receipt(call, None),
    }
}

/// Why a device is told to stop ringing.
#[derive(Clone, Copy, Debug, PartialEq, Eq, Structural)]
pub enum Elsewhere {
    Accepted,
    Rejected,
}

/// The word for it in a `<terminate>`.
pub open spec fn reason_text(reason: Elsewhere) -> Seq<char> {
    match reason {
        Elsewhere::Accepted => "accepted_elsewhere"@,
        Elsewhere::Rejected => "rejected_elsewhere"@,
    }
}

impl Elsewhere {
    /// The word for it in a `<terminate>`.
    pub fn text(&self) -> (r: &'static str)
        ensures
            r@ == reason_text(*self),
    {
        match self {
            Elsewhere::Accepted => "accepted_elsewhere",
            Elsewhere::Rejected => "rejected_elsewhere",
        }
    }
}

/// One device to be told to stop ringing.
#[derive(Debug)]
pub struct Dismissal {
    pub to: Jid,
    pub call_id: String,
    pub call_creator: Jid,
    pub reason: Elsewhere,
}

/// What a dismissal holds.
pub struct DismissalView {
    pub to: JidView,
    pub call_id: Seq<char>,
    pub call_creator: JidView,
    pub reason: Elsewhere,
}

impl View for Dismissal {
    type V = DismissalView;

    open spec fn view(&self) -> DismissalView {
        DismissalView {
            to: self.to@,
            call_id: self.call_id@,
            call_creator: self.call_creator@,
            reason: self.reason,
        }
    }
}

impl Dismissal {
    /// The `<terminate>` that dismisses the device, in a `<call>` with the given id.
    pub fn stanza(&self, id: &str) -> (r: Node)
        ensures
            element(r) == terminate_element(
                self@.to,
                id@,
                self@.call_id,
                self@.call_creator,
                reason_text(self@.reason),
            ),
    {
        build_terminate(
            &self.to.write(),
            id,
            self.call_id.as_str(),
            &self.call_creator.write(),
            self.reason.text(),
        )
    }
}

} // verus!
