//! The idle timeout of an endpoint's transport configuration.
use quinn_proto::{VarInt, VarIntBoundsExceeded};
use vstd::prelude::*;

verus! {

/// `quinn_proto::VarIntBoundsExceeded`: a value does not fit a QUIC variable-length integer.
#[verifier::external_type_specification]
#[verifier::external_body]
pub struct ExVarIntBoundsExceeded(VarIntBoundsExceeded);

/// Default idle timeout of an endpoint (1 minute), in milliseconds.
///
/// This is based on average time in which routers would close the UDP mapping
/// to the peer if they see no conversation between them.
pub const DEFAULT_IDLE_TIMEOUT_MS: u128 = 60_000;

/// Largest value a QUIC variable-length integer holds, plus one (2^62).
pub const VARINT_BOUND: u128 = 0x4000_0000_0000_0000;

/// Calls `quinn_proto::VarInt::try_from(u128)`, which its source documents
/// and implements as succeeding exactly when the value is below 2^62, and
/// reads the value back with `VarInt::into_inner`, which returns the integer
/// the `VarInt` holds.
#[verifier::external_body]
fn varint_from_u128(x: u128) -> (r: Result<u64, VarIntBoundsExceeded>)
    ensures
        r is Ok <==> x < VARINT_BOUND,
        r matches Ok(v) ==> v == x,
{
    VarInt::try_from(x).map(VarInt::into_inner)
}

/// The idle timeout, in milliseconds, that an endpoint configured with
/// `idle_timeout_ms` uses.
pub open spec fn effective_idle_timeout_ms(idle_timeout_ms: Option<u128>) -> u128 {
    match idle_timeout_ms {
        Some(ms) => ms,
        None => DEFAULT_IDLE_TIMEOUT_MS,
    }
}

/// The transport idle timeout for an endpoint, in milliseconds, as a QUIC
/// variable-length integer holds it: the configured duration, one minute when
/// none is configured. A duration of 2^62 milliseconds or more cannot be
/// expressed and is refused.
pub fn transport_idle_timeout(idle_timeout_ms: Option<u128>) -> (r: Result<u64, VarIntBoundsExceeded>)
    ensures
        r is Ok <==> effective_idle_timeout_ms(idle_timeout_ms) < VARINT_BOUND,
        r matches Ok(ms) ==> ms == effective_idle_timeout_ms(idle_timeout_ms),
{
    let ms = match idle_timeout_ms {
        Some(ms) => ms,
        None => DEFAULT_IDLE_TIMEOUT_MS,
    };
    varint_from_u128(ms)
}

} // verus!
