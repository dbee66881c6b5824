use crate::circuit_code::{CircuitCodeData, CircuitCodeV};
use crate::complete_agent_movement::{CompleteAgentMovementData, CompleteAgentMovementV};
use crate::errors::PacketError;
use crate::header::PacketFrequency;
use crate::login::{spec_login_wf, LoginData, LoginV};
use crate::packet::PacketData;
use vstd::prelude::*;

verus! {

// The identifier of each registered message kind within its frequency
// class. Identifiers are not globally unique: only the (frequency, id)
// pair names a message kind.
pub const CIRCUIT_CODE_ID: u32 = 3;

pub const COMPLETE_AGENT_MOVEMENT_ID: u32 = 249;

pub const LOGIN_ID: u32 = 66;

pub const AGENT_UPDATE_ID: u32 = 4;

pub const COARSE_LOCATION_UPDATE_ID: u32 = 6;

/// The closed set of message bodies this client understands. A new
/// message kind is added by extending this set and the registry mapping
/// below — never by touching the header codec or another variant.
/// Bodies whose field layout does not matter to the bootstrap are
/// carried as their raw bytes.
#[derive(Clone, Debug)]
pub enum PacketType {
    CircuitCode(CircuitCodeData),
    CompleteAgentMovement(CompleteAgentMovementData),
    Login(LoginData),
    AgentUpdate(Vec<u8>),
    CoarseLocationUpdate(Vec<u8>),
}

/// Mathematical model of a message body.
pub enum PacketTypeV {
    CircuitCode(CircuitCodeV),
    CompleteAgentMovement(CompleteAgentMovementV),
    Login(LoginV),
    AgentUpdate(Seq<u8>),
    CoarseLocationUpdate(Seq<u8>),
}

impl View for PacketType {
    type V = PacketTypeV;

    open spec fn view(&self) -> PacketTypeV {
        match self {
            PacketType::CircuitCode(v) => PacketTypeV::CircuitCode(v@),
            PacketType::CompleteAgentMovement(v) => PacketTypeV::CompleteAgentMovement(v@),
            PacketType::Login(v) => PacketTypeV::Login(v@),
            PacketType::AgentUpdate(b) => PacketTypeV::AgentUpdate(b@),
            PacketType::CoarseLocationUpdate(b) => PacketTypeV::CoarseLocationUpdate(b@),
        }
    }
}

/// The frequency class under which each variant is registered.
pub open spec fn spec_variant_frequency(pt: PacketTypeV) -> PacketFrequency {
    match pt {
        PacketTypeV::CircuitCode(_) => PacketFrequency::Low,
        PacketTypeV::CompleteAgentMovement(_) => PacketFrequency::Low,
        PacketTypeV::Login(_) => PacketFrequency::Low,
        PacketTypeV::AgentUpdate(_) => PacketFrequency::High,
        PacketTypeV::CoarseLocationUpdate(_) => PacketFrequency::Medium,
    }
}

/// The identifier under which each variant is registered.
pub open spec fn spec_variant_id(pt: PacketTypeV) -> u32 {
    match pt {
        PacketTypeV::CircuitCode(_) => CIRCUIT_CODE_ID,
        PacketTypeV::CompleteAgentMovement(_) => COMPLETE_AGENT_MOVEMENT_ID,
        PacketTypeV::Login(_) => LOGIN_ID,
        PacketTypeV::AgentUpdate(_) => AGENT_UPDATE_ID,
        PacketTypeV::CoarseLocationUpdate(_) => COARSE_LOCATION_UPDATE_ID,
    }
}

/// Whether some variant is registered for the (frequency, id) pair.
pub open spec fn spec_registered(f: PacketFrequency, id: u32) -> bool {
    match f {
        PacketFrequency::Low => id == CIRCUIT_CODE_ID || id == COMPLETE_AGENT_MOVEMENT_ID || id
            == LOGIN_ID,
        PacketFrequency::Medium => id == COARSE_LOCATION_UPDATE_ID,
        PacketFrequency::High => id == AGENT_UPDATE_ID,
    }
}

/// The wire form of a body, variant by variant.
pub open spec fn spec_body_wire(pt: PacketTypeV) -> Seq<u8> {
    match pt {
        PacketTypeV::CircuitCode(v) => crate::circuit_code::spec_circuit_code_bytes(v),
        PacketTypeV::CompleteAgentMovement(v) =>
            crate::complete_agent_movement::spec_complete_agent_movement_bytes(v),
        PacketTypeV::Login(v) => crate::login::spec_login_bytes(v),
        PacketTypeV::AgentUpdate(b) => b,
        PacketTypeV::CoarseLocationUpdate(b) => b,
    }
}

/// Whether a body value can be encoded.
pub open spec fn spec_body_wf(pt: PacketTypeV) -> bool {
    match pt {
        PacketTypeV::Login(v) => spec_login_wf(v),
        _ => true,
    }
}

/// Whether the bytes are a valid body for the variant registered at the
/// (frequency, id) pair.
pub open spec fn spec_body_ok(f: PacketFrequency, id: u32, b: Seq<u8>) -> bool {
    &&& spec_registered(f, id)
    &&& match f {
        PacketFrequency::Low => if id == CIRCUIT_CODE_ID {
            CircuitCodeData::parse_ok(b)
        } else if id == COMPLETE_AGENT_MOVEMENT_ID {
            CompleteAgentMovementData::parse_ok(b)
        } else {
            LoginData::parse_ok(b)
        },
        PacketFrequency::Medium => true,
        PacketFrequency::High => true,
    }
}

/// The error the registry reports: `UnknownMessageType` when nothing is
/// registered for the pair — never silently coerced to a default variant
/// — else the registered variant's own decode error.
pub open spec fn spec_body_err(f: PacketFrequency, id: u32, b: Seq<u8>) -> PacketError
    recommends
        !spec_body_ok(f, id, b),
{
    if !spec_registered(f, id) {
        PacketError::UnknownMessageType
    } else {
        match f {
            PacketFrequency::Low => if id == CIRCUIT_CODE_ID {
                CircuitCodeData::parse_err(b)
            } else if id == COMPLETE_AGENT_MOVEMENT_ID {
                CompleteAgentMovementData::parse_err(b)
            } else {
                LoginData::parse_err(b)
            },
            PacketFrequency::Medium => PacketError::UnknownMessageType,
            PacketFrequency::High => PacketError::UnknownMessageType,
        }
    }
}

/// Copies a raw body.
fn copy_bytes(src: &[u8]) -> (r: Vec<u8>)
    ensures
        r@ == src@,
{
    vstd::slice::slice_to_vec(src)
}

impl PacketType {
    /// The registry's dispatch: resolves the (frequency, id) pair to its
    /// registered variant and lets that variant decode the body bytes.
    /// Fails with `UnknownMessageType` — a recoverable condition — when
    /// no variant is registered for the pair; performs no field-level
    /// parsing itself.
    pub fn from_id(id: u32, frequency: PacketFrequency, bytes: &[u8]) -> (r: Result<
        PacketType,
        PacketError,
    >)
        ensures
            match r {
                Ok(pt) => {
                    &&& spec_body_ok(frequency, id, bytes@)
                    &&& spec_variant_frequency(pt@) == frequency
                    &&& spec_variant_id(pt@) == id
                    &&& spec_body_wf(pt@)
                    &&& spec_body_wire(pt@) == bytes@
                },
                Err(e) => !spec_body_ok(frequency, id, bytes@) && e == spec_body_err(
                    frequency,
                    id,
                    bytes@,
                ),
            },
    {
        match frequency {
            PacketFrequency::Low => {
                if id == CIRCUIT_CODE_ID {
                    match CircuitCodeData::from_bytes(bytes) {
                        Ok(v) => Ok(PacketType::CircuitCode(v)),
                        Err(e) => Err(e),
                    }
                } else if id == COMPLETE_AGENT_MOVEMENT_ID {
                    match CompleteAgentMovementData::from_bytes(bytes) {
                        Ok(v) => Ok(PacketType::CompleteAgentMovement(v)),
                        Err(e) => Err(e),
                    }
                } else if id == LOGIN_ID {
                    match LoginData::from_bytes(bytes) {
                        Ok(v) => Ok(PacketType::Login(v)),
                        Err(e) => Err(e),
                    }
                } else {
                    Err(PacketError::UnknownMessageType)
                }
            },
            PacketFrequency::Medium => {
                if id == COARSE_LOCATION_UPDATE_ID {
                    Ok(PacketType::CoarseLocationUpdate(copy_bytes(bytes)))
                } else {
                    Err(PacketError::UnknownMessageType)
                }
            },
            PacketFrequency::High => {
                if id == AGENT_UPDATE_ID {
                    Ok(PacketType::AgentUpdate(copy_bytes(bytes)))
                } else {
                    Err(PacketError::UnknownMessageType)
                }
            },
        }
    }

    /// Encodes the body; the registry only dispatches, each variant
    /// serializes itself.
    pub fn to_bytes(&self) -> (r: Vec<u8>)
        requires
            spec_body_wf(self@),
        ensures
            r@ == spec_body_wire(self@),
    {
        match self {
            PacketType::CircuitCode(v) => v.to_bytes(),
            PacketType::CompleteAgentMovement(v) => v.to_bytes(),
            PacketType::Login(v) => v.to_bytes(),
            PacketType::AgentUpdate(b) => copy_bytes(b.as_slice()),
            PacketType::CoarseLocationUpdate(b) => copy_bytes(b.as_slice()),
        }
    }

    /// The frequency class this body is registered under.
    pub fn frequency(&self) -> (f: PacketFrequency)
        ensures
            f == spec_variant_frequency(self@),
    {
        match self {
            PacketType::CircuitCode(_) => PacketFrequency::Low,
            PacketType::CompleteAgentMovement(_) => PacketFrequency::Low,
            PacketType::Login(_) => PacketFrequency::Low,
            PacketType::AgentUpdate(_) => PacketFrequency::High,
            PacketType::CoarseLocationUpdate(_) => PacketFrequency::Medium,
        }
    }

    /// The identifier this body is registered under.
    pub fn id(&self) -> (id: u32)
        ensures
            id == spec_variant_id(self@),
    {
        match self {
            PacketType::CircuitCode(_) => CIRCUIT_CODE_ID,
            PacketType::CompleteAgentMovement(_) => COMPLETE_AGENT_MOVEMENT_ID,
            PacketType::Login(_) => LOGIN_ID,
            PacketType::AgentUpdate(_) => AGENT_UPDATE_ID,
            PacketType::CoarseLocationUpdate(_) => COARSE_LOCATION_UPDATE_ID,
        }
    }
}

/// A registered body is valid exactly for the pair it is registered
/// under, and an unregistered pair is refused with `UnknownMessageType`:
/// ambiguity is an error, not a wildcard match.
pub proof fn lemma_unknown_pair_refused(f: PacketFrequency, id: u32, b: Seq<u8>)
    requires
        !spec_registered(f, id),
    ensures
        !spec_body_ok(f, id, b),
        spec_body_err(f, id, b) == PacketError::UnknownMessageType,
{
}

} // verus!
