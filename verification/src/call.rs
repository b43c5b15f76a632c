//! Calls as the stanzas announce them.
use vstd::prelude::*;
use wacore::types::call::CallAction;
use wacore::types::call::IncomingCall;
use wacore_binary::Jid as WireJid;
use wacore_binary::NodeRef;
use crate::address::Jid;
use crate::address::JidView;
use crate::address::jid_fields;

verus! {

/// What a stanza says about its call.
#[derive(Clone, Copy, Debug, PartialEq, Eq, Structural)]
pub enum CallKind {
    /// A peer rings us.
    Offer,
    /// A device of the peer answered.
    Accept,
    /// A device of the peer declined.
    Reject,
    /// The peer ended the call.
    Terminate,
    /// Signaling that asks nothing of the handler.
    Other,
}

/// The part of a call stanza that the handler goes by.
#[derive(Debug)]
pub struct Call {
    /// The device that sent the stanza.
    pub from: Jid,
    /// The id of the stanza, which is not the id of the call.
    pub stanza_id: String,
    /// When the server stamped the stanza, in seconds since 1970.
    pub timestamp: i64,
    /// The server replayed the stanza from its offline queue.
    pub offline: bool,
    pub kind: CallKind,
    pub call_id: String,
    pub call_creator: Jid,
}

/// What a call stanza holds.
pub struct CallView {
    pub from: JidView,
    pub stanza_id: Seq<char>,
    pub timestamp: i64,
    pub offline: bool,
    pub kind: CallKind,
    pub call_id: Seq<char>,
    pub call_creator: JidView,
}

impl View for Call {
    type V = CallView;

    open spec fn view(&self) -> CallView {
        CallView {
            from: self.from@,
            stanza_id: self.stanza_id@,
            timestamp: self.timestamp,
            offline: self.offline,
            kind: self.kind,
            call_id: self.call_id@,
            call_creator: self.call_creator@,
        }
    }
}

/// `wacore_binary::NodeRef`, a stanza as it came from the server.
#[verifier::external_type_specification]
#[verifier::external_body]
pub struct ExNodeRef<'a>(NodeRef<'a>);

/// `wacore::types::call::IncomingCall`, a parsed call stanza.
#[verifier::external_type_specification]
#[verifier::external_body]
pub struct ExIncomingCall(IncomingCall);

/// `anyhow::Error`, with which the parser reports what is wrong with a stanza.
#[verifier::external_type_specification]
#[verifier::external_body]
pub struct ExError(anyhow::Error);

/// The fields of an `IncomingCall` that a `Call` keeps.
pub uninterp spec fn call_fields(call: IncomingCall) -> CallView;

/// What `wacore::stanza::call::parse_call_stanza` makes of a stanza: a call, nothing where it
/// knows none of the actions in it, or an error.
pub uninterp spec fn stanza_outcome(node: NodeRef<'_>) -> Result<Option<IncomingCall>, ()>;

/// An outcome of the parser, with the error taken by its presence.
pub open spec fn outcome_view(outcome: Result<Option<IncomingCall>, anyhow::Error>) -> Result<
    Option<IncomingCall>,
    (),
> {
    match outcome {
        Ok(call) => Ok(call),
        Err(_) => Err(()),
    }
}

/// `wacore::stanza::call::parse_call_stanza`. Claimed: whether it fails, and the call that it
/// returns, depend on the stanza alone. What an error holds is left open.
#[verifier::external_body]
pub(crate) fn parse_call_stanza(node: &NodeRef<'_>) -> (r: Result<
    Option<IncomingCall>,
    anyhow::Error,
>)
    ensures
        outcome_view(r) == stanza_outcome(*node),
{
    wacore::stanza::call::parse_call_stanza(node)
}

/// Reads an `IncomingCall`: its sender, its creator, its call id, its stanza id, its timestamp
/// in whole seconds, its offline mark and its kind of action, the creator and the call id
/// through `CallAction::call_creator` and `CallAction::call_id`. Claimed: these are the fields
/// that the call holds.
#[verifier::external_body]
fn call_parts(call: &IncomingCall) -> (r: (&WireJid, &WireJid, &str, &str, i64, bool, CallKind))
    ensures
        jid_fields(*r.0) == call_fields(*call).from,
        jid_fields(*r.1) == call_fields(*call).call_creator,
        r.2@ == call_fields(*call).call_id,
        r.3@ == call_fields(*call).stanza_id,
        r.4 == call_fields(*call).timestamp,
        r.5 == call_fields(*call).offline,
        r.6 == call_fields(*call).kind,
{
    let action = &call.action;
    let kind = match action {
        CallAction::Offer { .. } => CallKind::Offer,
        CallAction::Accept { .. } => CallKind::Accept,
        CallAction::Reject { .. } => CallKind::Reject,
        CallAction::Terminate { .. } => CallKind::Terminate,
        _ => CallKind::Other,
    };
    let seconds = call.timestamp.timestamp();
    (&call.from, action.call_creator(), action.call_id(), &call.stanza_id, seconds, call.offline, kind)
}

impl Call {
    /// The part of a parsed stanza that the handler goes by.
    pub fn read(call: &IncomingCall) -> (r: Self)
        ensures
            r@ == call_fields(*call),
    {
        let (from, call_creator, call_id, stanza_id, timestamp, offline, kind) = call_parts(call);
        Call {
            from: Jid::read(from),
            stanza_id: stanza_id.to_owned(),
            timestamp,
            offline,
            kind,
            call_id: call_id.to_owned(),
            call_creator: Jid::read(call_creator),
        }
    }
}

} // verus!
