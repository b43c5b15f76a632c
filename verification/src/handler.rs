//! The handler for `<call>` stanzas.
use vstd::prelude::*;
use wacore::types::call::IncomingCall;
use wacore::voip::CallRegistry;
use wacore_binary::NodeRef;
use crate::call::Call;
use crate::call::CallKind;
use crate::call::call_fields;
use crate::call::parse_call_stanza;
use crate::call::stanza_outcome;
use crate::plan::Step;
use crate::plan::calls_after;
use crate::plan::consults_registry;
use crate::plan::plan_steps;
use crate::plan::response;
use crate::plan::step_views;
use crate::registry::calls;
use crate::registry::is_registered;
use crate::registry::sound;
use crate::registry::take_dismiss_targets;

verus! {

/// Handles the stanzas that carry call signaling. It parses them and decides what is done about
/// the call; the generic acknowledgement of the stanza is sent elsewhere.
#[derive(Clone, Copy, Debug, Default)]
pub struct CallHandler;

/// A stanza that does not parse as a call.
#[derive(Debug)]
pub struct StanzaError {
    /// What the parser found wrong with it.
    pub cause: anyhow::Error,
}

/// What comes of a stanza.
#[derive(Debug)]
pub enum Reaction {
    /// These steps are performed about this call, in order.
    Act { call: IncomingCall, steps: Vec<Step> },
    /// No action in the stanza is known, as when the server is newer than the client: nothing
    /// is done.
    Unrecognized,
    /// The stanza is broken: nothing is done.
    Malformed(StanzaError),
}

/// The outcome of handling a stanza.
#[derive(Debug)]
pub struct Handling {
    /// The stanza has been dealt with, and no other handler needs to see it.
    pub handled: bool,
    pub reaction: Reaction,
}

impl CallHandler {
    /// The tag of the stanzas that this handler is for.
    pub fn tag(&self) -> (r: &'static str)
        ensures
            r@ == "call"@,
    {
        "call"
    }

    /// Decides what is done about a call. Where a device of the peer accepted or rejected a
    /// call of ours, the list of devices that it rang is taken from the registry.
    pub fn respond(&self, registry: &mut CallRegistry, call: &Call) -> (r: Vec<Step>)
        requires
            consults_registry(call@.kind) ==> sound(*old(registry)),
        ensures
            sound(*old(registry)) ==> sound(*final(registry)),
            !consults_registry(call@.kind) ==> *final(registry) == *old(registry),
            step_views(r@) == response(call@, calls(*old(registry))),
            calls(*final(registry)) == calls_after(call@, calls(*old(registry))),
    {
        let call_id = call.call_id.as_str();
        match call.kind {
            CallKind::Accept | CallKind::Reject => {
                let targets = take_dismiss_targets(registry, call_id);
                plan_steps(call, &targets, true)
            },
            CallKind::Terminate => {
                let ongoing = is_registered(registry, call_id);
                plan_steps(call, &None, ongoing)
            },
            _ => plan_steps(call, &None, true),
        }
    }

    /// Decides what comes of a stanza, given what the parser made of it. The call is handed on as
    /// it was parsed, and so is the error.
    pub fn react(
        &self,
        registry: &mut CallRegistry,
        outcome: Result<Option<IncomingCall>, anyhow::Error>,
    ) -> (r: Reaction)
        requires
            match outcome {
                Ok(Some(whole)) => consults_registry(call_fields(whole).kind) ==> sound(
                    *old(registry),
                ),
                _ => true,
            },
        ensures
            sound(*old(registry)) ==> sound(*final(registry)),
            match outcome {
                Ok(Some(whole)) => {
                    &&& r matches Reaction::Act { call, steps }
                    &&& call == whole
                    &&& step_views(steps@) == response(call_fields(whole), calls(*old(registry)))
                    &&& calls(*final(registry)) == calls_after(
                        call_fields(whole),
                        calls(*old(registry)),
                    )
                    &&& !consults_registry(call_fields(whole).kind) ==> *final(registry) == *old(
                        registry,
                    )
                },
                Ok(None) => {
                    &&& r is Unrecognized
                    &&& calls(*final(registry)) == calls(*old(registry))
                    &&& *final(registry) == *old(registry)
                },
                Err(cause) => {
                    &&& r == Reaction::Malformed(StanzaError { cause })
                    &&& calls(*final(registry)) == calls(*old(registry))
                    &&& *final(registry) == *old(registry)
                },
            },
    {
        match outcome {
            Ok(Some(call)) => {
                let steps = self.respond(registry, &Call::read(&call));
                Reaction::Act { call, steps }
            },
            Ok(None) => Reaction::Unrecognized,
            Err(cause) => Reaction::Malformed(StanzaError { cause }),
        }
    }

    /// Handles a stanza: parses it and decides what is done about its call, which is handed on
    /// as it was parsed. Every stanza counts as handled, also one that is broken or not
    /// understood. The registry has to be sound where the call is looked up in it.
    pub fn handle(&self, registry: &mut CallRegistry, node: &NodeRef<'_>) -> (r: Handling)
        requires
            match stanza_outcome(*node) {
                Ok(Some(whole)) => consults_registry(call_fields(whole).kind) ==> sound(
                    *old(registry),
                ),
                _ => true,
            },
        ensures
            sound(*old(registry)) ==> sound(*final(registry)),
            r.handled,
            match stanza_outcome(*node) {
                Ok(Some(whole)) => {
                    &&& r.reaction matches Reaction::Act { call, steps }
                    &&& call == whole
                    &&& step_views(steps@) == response(call_fields(whole), calls(*old(registry)))
                    &&& calls(*final(registry)) == calls_after(
                        call_fields(whole),
                        calls(*old(registry)),
                    )
                    &&& !consults_registry(call_fields(whole).kind) ==> *final(registry) == *old(
                        registry,
                    )
                },
                Ok(None) => {
                    &&& r.reaction is Unrecognized
                    &&& calls(*final(registry)) == calls(*old(registry))
                    &&& *final(registry) == *old(registry)
                },
                Err(_) => {
                    &&& r.reaction is Malformed
                    &&& calls(*final(registry)) == calls(*old(registry))
                    &&& *final(registry) == *old(registry)
                },
            },
    {
        let outcome = parse_call_stanza(node);
        Handling { handled: true, reaction: self.react(registry, outcome) }
    }
}

} // verus!
