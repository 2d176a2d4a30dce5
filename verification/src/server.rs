//! Server-origin wire messages and their codec.
//!
//! The server sends only one message: the discovery acknowledgment `Hello`,
//! mirroring the client's probe with the server's own role flag and an empty
//! payload.

use vstd::prelude::*;

use crate::constants::{INSTRUCTION_HELLO, INSTRUCTION_MASK, MAX_MESSAGE_LENGTH, SERVER_FLAG};
use crate::error::Error;
use crate::leds::spec_fill_frame;

verus! {

/// The messages the server can send to a client.
#[derive(Debug, Clone, Copy, PartialEq, Eq, Structural)]
pub enum ServerMessages {
    /// Discovery acknowledgment: confirms to a probing client that this is
    /// the server.
    Hello,
}

/// The exact maximum-size buffer that encodes `m`: server role flag, the
/// hello instruction, and zero padding up to `MAX_MESSAGE_LENGTH`.
pub open spec fn spec_encode_server(m: ServerMessages) -> Seq<u8> {
    match m {
        ServerMessages::Hello => seq![SERVER_FLAG, INSTRUCTION_HELLO] + spec_fill_frame(
            Seq::empty(),
        ),
    }
}

/// What decoding a server-origin buffer yields, for every possible buffer.
///
/// Length bounds and the role flag are checked as for client messages; the
/// only instruction the server ever sends is the hello acknowledgment, so any
/// other instruction marks the buffer as not a valid server frame.
pub open spec fn spec_decode_server(bytes: Seq<u8>) -> Result<ServerMessages, Error> {
    if bytes.len() < 2 || bytes.len() > MAX_MESSAGE_LENGTH {
        Err(Error::InvalidMessageLength)
    } else if bytes[0] != SERVER_FLAG {
        Err(Error::InvalidFlag)
    } else if bytes[1] & INSTRUCTION_MASK == INSTRUCTION_HELLO {
        Ok(ServerMessages::Hello)
    } else {
        Err(Error::InvalidFlag)
    }
}

impl ServerMessages {
    /// Creates a new hello (discovery acknowledgment) message.
    pub fn hello() -> (m: Self)
        ensures
            m == ServerMessages::Hello,
    {
        ServerMessages::Hello
    }

    /// Encodes this message into the fixed maximum-size wire buffer, with
    /// every unused trailing byte zero.
    pub fn encode(&self) -> (buf: Vec<u8>)
        ensures
            buf@ == spec_encode_server(*self),
            buf@.len() == MAX_MESSAGE_LENGTH,
    {
        let ghost target = spec_encode_server(*self);
        let mut buf: Vec<u8> = Vec::new();
        buf.push(SERVER_FLAG);
        buf.push(INSTRUCTION_HELLO);
        proof {
            assert(buf@ =~= target.take(2));
            assert(forall|j: int|
                2 <= j < MAX_MESSAGE_LENGTH ==> #[trigger] target[j] == 0u8);
        }
        while buf.len() < MAX_MESSAGE_LENGTH
            invariant
                buf@.len() <= MAX_MESSAGE_LENGTH,
                target.len() == MAX_MESSAGE_LENGTH,
                buf@ == target.take(buf@.len() as int),
                forall|j: int|
                    buf@.len() <= j < MAX_MESSAGE_LENGTH ==> #[trigger] target[j] == 0u8,
            decreases MAX_MESSAGE_LENGTH - buf@.len(),
        {
            buf.push(0);
            proof {
                assert(buf@ =~= target.take(buf@.len() as int));
            }
        }
        proof {
            assert(buf@ =~= target);
        }
        buf
    }

    /// Decodes a server-origin buffer, yielding exactly what
    /// [`spec_decode_server`] says for it.
    pub fn decode(bytes: &[u8]) -> (r: Result<ServerMessages, Error>)
        ensures
            r == spec_decode_server(bytes@),
    {
        let n = bytes.len();
        if n < 2 || n > MAX_MESSAGE_LENGTH {
            return Err(Error::InvalidMessageLength);
        }
        if bytes[0] != SERVER_FLAG {
            return Err(Error::InvalidFlag);
        }
        if bytes[1] & INSTRUCTION_MASK == INSTRUCTION_HELLO {
            Ok(ServerMessages::Hello)
        } else {
            Err(Error::InvalidFlag)
        }
    }
}

/// Law: decoding an encoded server message yields the message back.
pub proof fn lemma_server_round_trip(m: ServerMessages)
    ensures
        spec_decode_server(spec_encode_server(m)) == Ok::<ServerMessages, Error>(m),
{
    let e = spec_encode_server(m);
    assert(e.len() == MAX_MESSAGE_LENGTH);
    assert(0b1100_0000u8 & 0b1100_0000u8 == 0b1100_0000u8) by (bit_vector);
}

/// Law: a buffer of acceptable length whose role flag is not the server flag
/// is rejected, whatever its instruction bits hold.
pub proof fn lemma_server_wrong_flag_rejected(bytes: Seq<u8>)
    requires
        2 <= bytes.len() <= MAX_MESSAGE_LENGTH,
        bytes[0] != SERVER_FLAG,
    ensures
        spec_decode_server(bytes) == Err::<ServerMessages, Error>(Error::InvalidFlag),
{
}

} // verus!
