//! Notification payloads as submitted by callers.

use vstd::prelude::*;

verus! {

/// Bit 0 of a payload's flag field: the blob is pre-encrypted and must be
/// forwarded to the vendor opaquely, without interpretation.
pub const ENCRYPTED_FLAG: u32 = 1;

/// The body of one logical notification: an optional vendor routing hint,
/// a flag bitfield, and an opaque message blob. Immutable once submitted.
#[derive(Debug, Clone)]
pub struct MessagePayload {
    pub topic: Option<String>,
    pub flags: u32,
    pub blob: String,
}

/// Mathematical image of a [`MessagePayload`].
#[verifier::ext_equal]
pub ghost struct MessagePayloadView {
    pub topic: Option<Seq<char>>,
    pub flags: u32,
    pub blob: Seq<char>,
}

impl View for MessagePayload {
    type V = MessagePayloadView;

    open spec fn view(&self) -> MessagePayloadView {
        MessagePayloadView {
            topic: match self.topic {
                Some(t) => Some(t@),
                None => None,
            },
            flags: self.flags,
            blob: self.blob@,
        }
    }
}

impl MessagePayload {
    /// True exactly when the encrypted bit (bit 0) of `flags` is set.
    pub fn is_encrypted(&self) -> (r: bool)
        ensures
            r <==> (self.flags & ENCRYPTED_FLAG) == ENCRYPTED_FLAG,
    {
        (self.flags & ENCRYPTED_FLAG) == ENCRYPTED_FLAG
    }
}

/// A delivery request: the notification id, unique within a tenant, and the
/// payload to forward.
#[derive(Debug, Clone)]
pub struct PushMessageBody {
    pub id: String,
    pub payload: MessagePayload,
}

} // verus!
