//! Messages between streams, the writer task and the frame workers.
use bytes::Bytes;
use vstd::prelude::*;

verus! {

/// Command sent to the writer task.
pub enum MuxCommand {
    /// Open a paired stream (an "error" stream half-closed at open time and a
    /// "data" stream that carries application bytes) and emit the first DATA
    /// frame on the data stream.
    OpenStreamPairAndWrite {
        error_id: u32,
        data_id: u32,
        error_headers: Vec<(String, String)>,
        data_headers: Vec<(String, String)>,
        first_payload: Bytes,
    },
    /// Send a DATA frame.
    SendData { stream_id: u32, payload: Bytes, fin: bool },
    /// Send a complete DATA frame as it is.
    SendRawFrame { frame: Bytes },
    /// Close a stream with a RST_STREAM frame.
    CloseStream { stream_id: u32, status: u32 },
    /// Encode and send an SPDY PING.
    EncodePing { id: u32 },
    /// Send a WebSocket-level PONG.
    SendWsPong { payload: Bytes },
    /// Encode and send a WINDOW_UPDATE frame.
    EncodeWindowUpdate { stream_id: u32, delta: u32 },
    /// Send a GOAWAY frame and prepare for graceful shutdown.
    GoAway { last_good_stream_id: u32 },
}

/// Notice to the frame worker that owns a stream.
#[derive(Clone, Copy, Debug, PartialEq, Eq, Structural)]
pub enum StreamRegistration {
    /// The client closed the stream.
    Close { stream_id: u32 },
    /// The peer's initial window size changed by `delta`.
    SettingsWindowDelta { delta: i64 },
    /// The peer sent GOAWAY; streams behind `last_good_stream_id` are gone.
    GoAway { last_good_stream_id: u32, status: u32 },
}

} // verus!
