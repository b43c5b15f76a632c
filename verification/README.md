# call_handler

Decides what a messaging client does about an incoming `<call>` stanza, with the decisions
verified by Verus.

A stanza is parsed by `wacore`, the call is looked up in the registry of ongoing calls, and
`CallHandler::handle` returns an ordered list of plain steps: report a missed call, send the
receipt for an offer, tell the media side which device answered, tell the other devices of the
peer to stop ringing, end the call, report the call.

- `src/address.rs`: addresses, when two of them name the same device, and their text form
- `src/call.rs`: parsing a stanza and what the handler reads of a call
- `src/registry.rs`: the registry of ongoing calls
- `src/stanza.rs`: the receipts and dismissals that go out
- `src/plan.rs`: what each kind of call asks for, and the part of it that concerns the registry
- `src/handler.rs`: the handler
- `src/laws.rs`: what holds of the handler as a whole
- `app/`: performs the steps on an asynchronous client

Parsing, building stanzas and the registry itself are `wacore`'s. What the proofs rest on is
stated at the functions that call it, each marked as an external body. The registry has to be
sound where it is used: its lock is not poisoned, and the hooks of its calls return.
