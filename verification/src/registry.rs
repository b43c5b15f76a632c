//! The registry of ongoing calls.
use vstd::prelude::*;
use wacore::voip::CallRegistry;
use wacore_binary::Jid as WireJid;
use crate::address::Jid;
use crate::address::JidView;
use crate::address::jid_fields;

verus! {

/// What the registry keeps of a call, as far as the handler goes by it.
pub struct CallRecord {
    /// Tells this registration from an earlier one under the same call id.
    pub generation: u64,
    pub call_creator: JidView,
    /// The devices that a call of ours rang, until one of them answers.
    pub ring_devices: Seq<JidView>,
    /// The media side of a call of ours waits to hear which device answered.
    pub awaits_rekey: bool,
}

/// The ongoing calls by their ids.
pub type Calls = Map<Seq<char>, CallRecord>;

/// The creator of a call and the devices that it rang.
pub type TargetsView = (JidView, Seq<JidView>);

/// The devices that can still be told to stop ringing for a call: those that it rang, while
/// the call is known and the list has not been taken.
pub open spec fn dismiss_targets(calls: Calls, call_id: Seq<char>) -> Option<TargetsView> {
    if calls.contains_key(call_id) && calls[call_id].ring_devices.len() > 0 {
        Some((calls[call_id].call_creator, calls[call_id].ring_devices))
    } else {
        None
    }
}

/// The calls with the list of rung devices of one of them taken.
pub open spec fn without_targets(calls: Calls, call_id: Seq<char>) -> Calls {
    if calls.contains_key(call_id) {
        calls.insert(
            call_id,
            CallRecord { ring_devices: Seq::empty(), ..calls[call_id] },
        )
    } else {
        calls
    }
}

/// The calls with the media side of one of them no longer waiting to hear who answered.
pub open spec fn without_rekey(calls: Calls, call_id: Seq<char>) -> Calls {
    if calls.contains_key(call_id) {
        calls.insert(call_id, CallRecord { awaits_rekey: false, ..calls[call_id] })
    } else {
        calls
    }
}

/// `wacore::voip::CallRegistry`, a map of the ongoing calls behind a lock of its own.
#[verifier::external_type_specification]
#[verifier::external_body]
pub struct ExCallRegistry(CallRegistry);

/// The calls that a `CallRegistry` holds: for each its generation, the creator and the rung
/// devices of its session, and whether it has a sender for the address of the answering device.
pub uninterp spec fn calls(registry: CallRegistry) -> Calls;

/// A `CallRegistry` that can be used without a panic: its lock is not poisoned, and whatever it
/// runs on behalf of a call returns. That is the hooks and the abort handles that were registered
/// with the call, and the wakers of the tasks that wait for something of it.
pub uninterp spec fn sound(registry: CallRegistry) -> bool;

/// What `CallRegistry::send_rekey` makes of a registry, for a call id and the address of the
/// answering device that it offers to the channel of that call.
pub uninterp spec fn rekeyed(
    registry: CallRegistry,
    call_id: Seq<char>,
    answering: Seq<char>,
) -> CallRegistry;

/// The addresses in a list of `wacore_binary::Jid`.
pub open spec fn all_fields(jids: Seq<WireJid>) -> Seq<JidView> {
    jids.map_values(|j: WireJid| jid_fields(j))
}

/// A creator and a list of devices, by what they hold.
pub open spec fn wire_targets(targets: Option<(WireJid, Vec<WireJid>)>) -> Option<TargetsView> {
    match targets {
        Some((creator, devices)) => Some(
            (jid_fields(creator), all_fields(devices@)),
        ),
        None => None,
    }
}

/// `CallRegistry::new`. Claimed: the registry is sound and holds no call.
#[verifier::external_body]
fn empty_registry() -> (r: CallRegistry)
    ensures
        sound(r),
        calls(r).dom() == Set::<Seq<char>>::empty(),
{
    CallRegistry::new()
}

/// `CallRegistry::take_dismiss_targets`. Claimed, of a sound registry, which stays sound: it
/// returns the creator and the rung devices of a known call that has any and leaves that list
/// empty; otherwise it returns nothing and changes nothing. The registry is borrowed exclusively
/// here and below, so that no other task changes it meanwhile.
#[verifier::external_body]
fn take_wire_targets(registry: &mut CallRegistry, call_id: &str) -> (r: Option<
    (WireJid, Vec<WireJid>),
>)
    requires
        sound(*old(registry)),
    ensures
        wire_targets(r) == dismiss_targets(calls(*old(registry)), call_id@),
        calls(*final(registry)) == without_targets(calls(*old(registry)), call_id@),
        sound(*final(registry)),
{
    registry.take_dismiss_targets(call_id)
}

/// `CallRegistry::generation_of`. Claimed, of a sound registry, which stays sound: it returns the
/// generation of a known call and nothing for an unknown one, and changes nothing.
#[verifier::external_body]
fn generation_of(registry: &mut CallRegistry, call_id: &str) -> (r: Option<u64>)
    requires
        sound(*old(registry)),
    ensures
        r == (if calls(*old(registry)).contains_key(call_id@) {
            Some(calls(*old(registry))[call_id@].generation)
        } else {
            None
        }),
        calls(*final(registry)) == calls(*old(registry)),
        sound(*final(registry)),
{
    registry.generation_of(call_id)
}

/// `CallRegistry::send_rekey`. Claimed, of a sound registry, which stays sound: what is done
/// depends on the registry, the call id and the address alone, and `rekeyed` names it. The call,
/// if it is known, has no sender for the address of the answering device any more, and no other
/// call changes. If it had one, the address is offered to that channel without waiting. Whether
/// the channel has room, and when the other end reads it, is not part of the registry, and is
/// left open.
#[verifier::external_body]
fn send_rekey(registry: &mut CallRegistry, call_id: &str, answering: String)
    requires
        sound(*old(registry)),
    ensures
        *final(registry) == rekeyed(*old(registry), call_id@, answering@),
        calls(*final(registry)) == without_rekey(calls(*old(registry)), call_id@),
        sound(*final(registry)),
{
    registry.send_rekey(call_id, answering)
}

/// `CallRegistry::remove`. Claimed, of a sound registry, which stays sound: it says whether the
/// call was known, and the call is gone while the others stay. It runs the hooks that were
/// registered with the call.
#[verifier::external_body]
fn remove(registry: &mut CallRegistry, call_id: &str) -> (r: bool)
    requires
        sound(*old(registry)),
    ensures
        r == calls(*old(registry)).contains_key(call_id@),
        calls(*final(registry)) == calls(*old(registry)).remove(call_id@),
        sound(*final(registry)),
{
    registry.remove(call_id)
}

/// A creator and a list of devices, by what they hold.
pub open spec fn targets_view(targets: Option<(Jid, Vec<Jid>)>) -> Option<TargetsView> {
    match targets {
        Some((creator, devices)) => Some((creator@, devices@.map_values(|j: Jid| j@))),
        None => None,
    }
}

/// A registry without calls.
pub fn new_registry() -> (r: CallRegistry)
    ensures
        sound(r),
        calls(r) == Calls::empty(),
{
    let registry = empty_registry();
    assert(calls(registry) =~= Calls::empty());
    registry
}

/// Takes the creator of a call and the devices that it rang, once: the list is empty
/// afterwards. Nothing comes back for an unknown call or an empty list.
pub fn take_dismiss_targets(registry: &mut CallRegistry, call_id: &str) -> (r: Option<
    (Jid, Vec<Jid>),
>)
    requires
        sound(*old(registry)),
    ensures
        targets_view(r) == dismiss_targets(calls(*old(registry)), call_id@),
        calls(*final(registry)) == without_targets(calls(*old(registry)), call_id@),
        sound(*final(registry)),
{
    let taken = take_wire_targets(registry, call_id);
    match taken {
        Some((creator, wire)) => {
            let mut devices: Vec<Jid> = Vec::new();
            for i in 0..wire.len()
                invariant
                    devices@.len() == i,
                    forall|k: int|
                        0 <= k < i ==> (#[trigger] devices@[k])@ == jid_fields(
                            wire@[k],
                        ),
            {
                devices.push(Jid::read(&wire[i]));
            }
            assert(devices@.map_values(|j: Jid| j@) =~= all_fields(wire@));
            Some((Jid::read(&creator), devices))
        },
        None => None,
    }
}

/// Whether a call is ongoing.
pub fn is_registered(registry: &mut CallRegistry, call_id: &str) -> (r: bool)
    requires
        sound(*old(registry)),
    ensures
        r == calls(*old(registry)).contains_key(call_id@),
        calls(*final(registry)) == calls(*old(registry)),
        sound(*final(registry)),
{
    generation_of(registry, call_id).is_some()
}

/// Tells the media side of a call the address of the device that answered, if it still waits for
/// that. It waits no longer afterwards.
pub fn rekey(registry: &mut CallRegistry, call_id: &str, answering: &String)
    requires
        sound(*old(registry)),
    ensures
        *final(registry) == rekeyed(*old(registry), call_id@, answering@),
        calls(*final(registry)) == without_rekey(calls(*old(registry)), call_id@),
        sound(*final(registry)),
{
    send_rekey(registry, call_id, answering.clone())
}

/// Ends a call: it leaves the registry, and its media task with it. Tells whether there was
/// such a call.
pub fn end_call(registry: &mut CallRegistry, call_id: &str) -> (r: bool)
    requires
        sound(*old(registry)),
    ensures
        r == calls(*old(registry)).contains_key(call_id@),
        calls(*final(registry)) == calls(*old(registry)).remove(call_id@),
        sound(*final(registry)),
{
    remove(registry, call_id)
}

} // verus!
