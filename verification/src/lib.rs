//! The channel transport between a runner or a command line client and a server.

use vstd::prelude::*;

pub mod big_endian;
pub mod buffer;
pub mod channel;
pub mod channel_calls;
pub mod codec;
pub mod codec_calls;
pub mod codec_laws;
pub mod ident;
pub mod job;
pub mod laws;
pub mod message;
pub mod model;
pub mod mux;
pub mod mux_calls;
pub mod peer_data;
pub mod peers;
pub mod pipeline;
pub mod text;
pub mod value_calls;
pub mod worker;

verus! {

/// The HTTP Upgrade header value for the MuzanCI transport protocol.
pub const MUZANCI_TRANSPORT_V1: &'static str = "muzanci-transport/v1";

/// The HTTP header for the runner ID, sent by the server upon successful upgrade to the MuzanCI
/// transport protocol. The value must be a valid runner ID.
pub const MUZANCI_RUNNER_ID_HEADER: &'static str = "X-MuzanCI-Runner-ID";

} // verus!
