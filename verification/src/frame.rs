use vstd::prelude::*;

use crate::config::SessionConfig;

verus! {

/// One message on the outbound half of a session: either the one-time session
/// configuration or a chunk of raw audio bytes. Exactly one `Config` unit is
/// sent, first; every later unit is an `AudioChunk`, in FIFO order.
#[derive(Debug)]
pub enum RequestUnit {
    Config(SessionConfig),
    AudioChunk(Vec<u8>),
}

/// Wraps a session configuration into the unit that opens the outbound stream.
pub fn encode_config(config: SessionConfig) -> (u: RequestUnit)
    ensures
        u == RequestUnit::Config(config),
{
    RequestUnit::Config(config)
}

/// Wraps one chunk of raw audio into an outbound unit. An empty chunk is
/// valid and yields a zero-length payload; nothing is filtered here.
pub fn encode_audio(payload: Vec<u8>) -> (u: RequestUnit)
    ensures
        u == RequestUnit::AudioChunk(payload),
{
    RequestUnit::AudioChunk(payload)
}

} // verus!
