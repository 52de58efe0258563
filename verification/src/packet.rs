//! Command packet protocol: the fixed packet schema, its wire form, and
//! the protocol constants of the transport contract.
//!
//! A packet carries exactly four named unsigned integer fields. Its wire
//! form is a compact, self-describing JSON object — field-named, not
//! positional — so a heterogeneous receiver can parse it. The protocol is
//! fire-and-forget: no checksum, no sequence numbers, no acknowledgement.

use crate::document::Step;
use vstd::prelude::*;

verus! {

/// Milliseconds the interpreter paces after each dispatched command: a
/// deliberate settling time for the receiving simulator, fixed by the
/// protocol.
pub const PACING_MS: u64 = 100;

/// The one fixed destination of every command datagram.
pub fn command_target_addr() -> (r: &'static str)
    ensures
        r@ == "127.0.0.1:8051"@,
{
    "127.0.0.1:8051"
}

/// The fixed-shape message sent to the simulated spacecraft describing one
/// control action. Ephemeral: built fresh per action step, serialized,
/// sent, dropped.
#[derive(Clone, Copy, PartialEq, Eq, Structural, Debug)]
pub struct CommandPacket {
    /// Wire craft identifier of the craft being commanded.
    pub target_craft: u32,
    /// Wire command kind (the message-type enumeration).
    pub message_type: u32,
    /// Identifier of the control being actuated.
    pub id: u32,
    /// Target position of the control.
    pub to_pos: u32,
}

/// Whether a step actuates a control, and so produces a command packet.
pub open spec fn is_action(s: Step) -> bool {
    ||| s is SetSwitch
    ||| s is SetCircuitBreaker
    ||| s is SetSelector
    ||| s is SetHandle
}

/// The wire command kind of an action step: the closed message-type
/// enumeration of the receiving simulator, which must not be renumbered.
pub open spec fn message_type_spec(s: Step) -> u32
    recommends
        is_action(s),
{
    match s {
        Step::SetSwitch { .. } => 0,
        Step::SetCircuitBreaker { .. } => 2,
        Step::SetSelector { .. } => 3,
        Step::SetHandle { .. } => 4,
        _ => arbitrary(),
    }
}

/// The control identifier an action step actuates.
pub open spec fn action_set_id(s: Step) -> u32
    recommends
        is_action(s),
{
    match s {
        Step::SetSwitch { set_id, .. } => set_id,
        Step::SetCircuitBreaker { set_id, .. } => set_id,
        Step::SetSelector { set_id, .. } => set_id,
        Step::SetHandle { set_id, .. } => set_id,
        _ => arbitrary(),
    }
}

/// The position an action step moves its control to.
pub open spec fn action_to_pos(s: Step) -> u32
    recommends
        is_action(s),
{
    match s {
        Step::SetSwitch { to_pos_id, .. } => to_pos_id,
        Step::SetCircuitBreaker { to_pos_id, .. } => to_pos_id,
        Step::SetSelector { to_pos_id, .. } => to_pos_id,
        Step::SetHandle { to_pos_id, .. } => to_pos_id,
        _ => arbitrary(),
    }
}

/// The description an action step shows the operator.
pub open spec fn action_description(s: Step) -> String
    recommends
        is_action(s),
{
    match s {
        Step::SetSwitch { description, .. } => description,
        Step::SetCircuitBreaker { description, .. } => description,
        Step::SetSelector { description, .. } => description,
        Step::SetHandle { description, .. } => description,
        _ => arbitrary(),
    }
}

/// The packet an action step produces for the craft `craft_id`.
pub open spec fn packet_spec(s: Step, craft_id: u32) -> CommandPacket
    recommends
        is_action(s),
{
    CommandPacket {
        target_craft: craft_id,
        message_type: message_type_spec(s),
        id: action_set_id(s),
        to_pos: action_to_pos(s),
    }
}

/// Relies on reentryudp's MessageType enumeration: SetSwitch is its first
/// variant and the enumeration carries no explicit discriminants, so the
/// cast yields 0.
#[verifier::external_body]
fn wire_set_switch() -> (r: u32)
    ensures
        r == 0u32,
{
    reentryudp::domain_models::MessageType::SetSwitch as u32
}

/// Relies on reentryudp's MessageType enumeration: SetCircuitBreaker is
/// its third variant, so the cast yields 2.
#[verifier::external_body]
fn wire_set_circuit_breaker() -> (r: u32)
    ensures
        r == 2u32,
{
    reentryudp::domain_models::MessageType::SetCircuitBreaker as u32
}

/// Relies on reentryudp's MessageType enumeration: SetSelector is its
/// fourth variant, so the cast yields 3.
#[verifier::external_body]
fn wire_set_selector() -> (r: u32)
    ensures
        r == 3u32,
{
    reentryudp::domain_models::MessageType::SetSelector as u32
}

/// Relies on reentryudp's MessageType enumeration: SetHandle is its fifth
/// variant, so the cast yields 4.
#[verifier::external_body]
fn wire_set_handle() -> (r: u32)
    ensures
        r == 4u32,
{
    reentryudp::domain_models::MessageType::SetHandle as u32
}

/// Builds the command packet for an action step; a step of any other kind
/// produces none.
pub fn build_packet(step: &Step, craft_id: u32) -> (r: Option<CommandPacket>)
    ensures
        is_action(*step) ==> r == Some(packet_spec(*step, craft_id)),
        !is_action(*step) ==> r is None,
{
    match step {
        Step::SetSwitch { set_id, to_pos_id, .. } => Some(
            CommandPacket {
                target_craft: craft_id,
                message_type: wire_set_switch(),
                id: *set_id,
                to_pos: *to_pos_id,
            },
        ),
        Step::SetCircuitBreaker { set_id, to_pos_id, .. } => Some(
            CommandPacket {
                target_craft: craft_id,
                message_type: wire_set_circuit_breaker(),
                id: *set_id,
                to_pos: *to_pos_id,
            },
        ),
        Step::SetSelector { set_id, to_pos_id, .. } => Some(
            CommandPacket {
                target_craft: craft_id,
                message_type: wire_set_selector(),
                id: *set_id,
                to_pos: *to_pos_id,
            },
        ),
        Step::SetHandle { set_id, to_pos_id, .. } => Some(
            CommandPacket {
                target_craft: craft_id,
                message_type: wire_set_handle(),
                id: *set_id,
                to_pos: *to_pos_id,
            },
        ),
        _ => None,
    }
}

/// The decimal digit character for one digit value.
pub open spec fn digit_char(d: nat) -> char
    recommends
        d < 10,
{
    if d == 0 {
        '0'
    } else if d == 1 {
        '1'
    } else if d == 2 {
        '2'
    } else if d == 3 {
        '3'
    } else if d == 4 {
        '4'
    } else if d == 5 {
        '5'
    } else if d == 6 {
        '6'
    } else if d == 7 {
        '7'
    } else if d == 8 {
        '8'
    } else {
        '9'
    }
}

/// The decimal rendering of an unsigned integer, most significant digit
/// first, no sign and no leading zeroes.
pub open spec fn dec_of(n: nat) -> Seq<char>
    decreases n,
{
    if n < 10 {
        seq![digit_char(n)]
    } else {
        dec_of(n / 10).push(digit_char(n % 10))
    }
}

/// The wire form of one command packet: a compact JSON object with the
/// four fields named and in this order, each value a decimal integer.
pub open spec fn packet_json(p: CommandPacket) -> Seq<char> {
    "{\"TargetCraft\":"@ + dec_of(p.target_craft as nat) + ",\"MessageType\":"@ + dec_of(
        p.message_type as nat,
    ) + ",\"ID\":"@ + dec_of(p.id as nat) + ",\"ToPos\":"@ + dec_of(p.to_pos as nat) + "}"@
}

/// Relies on serde_json::to_string over reentryudp's DataPacket: the
/// derived serializer writes a compact JSON object with the four fields in
/// declaration order — TargetCraft, MessageType, ID, ToPos — each value a
/// plain decimal integer, and cannot fail for a struct of four unsigned
/// integers.
#[verifier::external_body]
fn serialize_data_packet(target_craft: u32, message_type: u32, id: u32, to_pos: u32) -> (r: String)
    ensures
        r@ == packet_json(CommandPacket { target_craft, message_type, id, to_pos }),
{
    let packet = reentryudp::domain_models::DataPacket {
        TargetCraft: target_craft,
        MessageType: message_type,
        ID: id,
        ToPos: to_pos,
    };
    match serde_json::to_string(&packet) {
        Ok(s) => s,
        Err(_) => String::new(),
    }
}

/// Serializes one command packet into the exact text a datagram carries.
pub fn packet_wire(p: &CommandPacket) -> (r: String)
    ensures
        r@ == packet_json(*p),
{
    serialize_data_packet(p.target_craft, p.message_type, p.id, p.to_pos)
}

} // verus!
