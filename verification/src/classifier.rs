//! Classification of a freshly accepted connection.
//!
//! The first 37 bytes a client sends are a 36-byte candidate session token
//! plus a NUL terminator. A non-ASCII candidate is not part of this protocol
//! at all: the connection is closed cleanly, with no error and no registry
//! change. An ASCII candidate is claimed atomically in the session registry:
//! first sighting makes the connection the control channel, any later
//! sighting a data channel.

use vstd::prelude::*;
use crate::registry::Registry;

verus! {

/// Number of token bytes in the first client message.
pub const TOKEN_LEN: usize = 36;

/// Bytes of the first client message on the wire: the token plus its NUL
/// terminator (which is discarded unread otherwise).
pub const TOKEN_WIRE_LEN: usize = 37;

/// The role a connection plays for the rest of its lifetime, fixed by its
/// first message.
#[derive(Clone, Copy, PartialEq, Eq, Structural, Debug)]
pub enum Role {
    /// First connection to present its token: drives the command state
    /// machine.
    Control,
    /// Later connection with an already-claimed token: delivers payload
    /// bytes to be counted.
    Data,
    /// Non-ASCII candidate token: an unrelated stream, closed silently.
    Unrecognized,
}

/// Every byte is ASCII.
pub open spec fn seq_is_ascii(s: Seq<u8>) -> bool {
    forall|i: int| 0 <= i < s.len() ==> s[i] < 128
}

/// The candidate token carried by a first message: its leading 36 bytes.
pub open spec fn spec_token(msg: Seq<u8>) -> Seq<u8> {
    msg.subrange(0, TOKEN_LEN as int)
}

fn is_ascii_token(msg: &Vec<u8>) -> (r: bool)
    requires
        msg@.len() >= TOKEN_LEN,
    ensures
        r == seq_is_ascii(spec_token(msg@)),
{
    let mut i: usize = 0;
    while i < TOKEN_LEN
        invariant
            msg@.len() >= TOKEN_LEN,
            i <= TOKEN_LEN,
            forall|j: int| 0 <= j < i ==> spec_token(msg@)[j] < 128,
        decreases TOKEN_LEN - i,
    {
        if msg[i] >= 128 {
            proof {
                assert(spec_token(msg@)[i as int] == msg@[i as int]);
            }
            return false;
        }
        i += 1;
    }
    true
}

fn copy_token(msg: &Vec<u8>) -> (t: Vec<u8>)
    requires
        msg@.len() >= TOKEN_LEN,
    ensures
        t@ == spec_token(msg@),
{
    let mut t: Vec<u8> = Vec::new();
    let mut i: usize = 0;
    while i < TOKEN_LEN
        invariant
            msg@.len() >= TOKEN_LEN,
            i <= TOKEN_LEN,
            t@.len() == i,
            forall|j: int| 0 <= j < i ==> t@[j] == msg@[j],
        decreases TOKEN_LEN - i,
    {
        t.push(msg[i]);
        i += 1;
    }
    proof {
        assert(t@ =~= spec_token(msg@));
    }
    t
}

/// Decides, from a connection's 37-byte first message, whether it is the
/// control channel, a data channel, or an unrecognized stream, and returns
/// the candidate token alongside the verdict.
///
/// A non-ASCII candidate leaves the registry untouched. An ASCII candidate
/// is claimed in one atomic registry operation: exactly when the token was
/// absent, the connection becomes the control channel and the token is now
/// registered; otherwise it is a data channel and the registry is unchanged.
pub fn classify(msg: &Vec<u8>, registry: &mut Registry) -> (r: (Role, Vec<u8>))
    requires
        msg@.len() == TOKEN_WIRE_LEN,
        old(registry).wf(),
    ensures
        final(registry).wf(),
        r.1@ == spec_token(msg@),
        !seq_is_ascii(spec_token(msg@)) ==> r.0 == Role::Unrecognized && *final(registry)
            == *old(registry),
        seq_is_ascii(spec_token(msg@)) && !old(registry)@.contains(spec_token(msg@)) ==> r.0
            == Role::Control && final(registry)@ == old(registry)@.insert(spec_token(msg@)),
        seq_is_ascii(spec_token(msg@)) && old(registry)@.contains(spec_token(msg@)) ==> r.0
            == Role::Data && *final(registry) == *old(registry),
{
    let token = copy_token(msg);
    if !is_ascii_token(msg) {
        return (Role::Unrecognized, token);
    }
    let stored = copy_token(msg);
    let claimed = registry.try_claim(stored);
    if claimed {
        (Role::Control, token)
    } else {
        (Role::Data, token)
    }
}

} // verus!
