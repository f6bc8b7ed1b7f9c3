//! The wire-serializable interface: a type supplies its type tag and its
//! payload codec; the envelope handling comes with the trait.

use vstd::prelude::*;

use crate::error::ProtocolError;
use crate::wire::{
    decode_envelope, decode_envelope_spec, encode_envelope, envelope_bytes, Envelope,
    PROTOCOL_VERSION,
};

verus! {

/// Types that can be serialized to/from the wire protocol. The payload starts
/// with the type tag byte; `decode_payload` receives it too (already
/// checked against the envelope's tag).
pub trait WireSerializable: Sized {
    /// The type tag that identifies this message type.
    const TYPE_TAG: u8;

    /// Encode the type-specific payload (starting with `TYPE_TAG`).
    fn encode_payload(&self) -> Vec<u8>;

    /// Decode from the payload bytes (including the leading type tag).
    fn decode_payload(payload: &[u8]) -> Result<Self, ProtocolError>;

    /// Serialize to wire format: the payload wrapped in an envelope tagged
    /// `TYPE_TAG`.
    fn to_bytes(&self) -> (r: Vec<u8>)
        ensures
            exists|p: Vec<u8>|
                call_ensures(Self::encode_payload, (self,), p) && r@ == envelope_bytes(
                    PROTOCOL_VERSION,
                    Self::TYPE_TAG,
                    p@,
                ),
    {
        let payload = self.encode_payload();
        let envelope = Envelope::new(Self::TYPE_TAG, payload);
        encode_envelope(&envelope)
    }

    /// Deserialize from wire format: the envelope must decode, carry
    /// `TYPE_TAG` and a non-empty payload, which is then decoded.
    fn from_bytes(data: &[u8]) -> (r: Result<Self, ProtocolError>)
        ensures
            match decode_envelope_spec(data@) {
                Err(e) => r == Err::<Self, ProtocolError>(e),
                Ok((_, tag, p)) => if tag != Self::TYPE_TAG {
                    r == Err::<Self, ProtocolError>(
                        ProtocolError::UnexpectedType { expected: Self::TYPE_TAG, got: tag },
                    )
                } else if p.len() == 0 {
                    r == Err::<Self, ProtocolError>(ProtocolError::EmptyPayload)
                } else {
                    exists|s: &[u8]| s@ == p && call_ensures(Self::decode_payload, (s,), r)
                },
            },
    {
        let envelope = match decode_envelope(data) {
            Ok(e) => e,
            Err(e) => return Err(e),
        };
        if envelope.type_tag != Self::TYPE_TAG {
            return Err(
                ProtocolError::UnexpectedType { expected: Self::TYPE_TAG, got: envelope.type_tag },
            );
        }
        if envelope.payload.len() == 0 {
            return Err(ProtocolError::EmptyPayload);
        }
        Self::decode_payload(envelope.payload.as_slice())
    }
}

} // verus!
