//! Limits of the multiplexer.
use crate::outside::clock::duration_nanos;
use std::time::Duration;
use vstd::prelude::*;

verus! {

/// Configurable limits for the SPDY multiplexer.
pub struct MuxConfig {
    /// Number of parallel WebSocket connections per session.
    pub pool_size: usize,
    /// Initial per-stream send/recv window size (bytes).
    pub initial_window_size: u32,
    /// Maximum concurrent stream *pairs* the SPDY peer accepts. Exceeding
    /// this is a protocol violation.
    pub max_concurrent_streams: u32,
    /// Maximum concurrent stream pairs the open path will allow before
    /// returning `CapacityExhausted`.
    pub operating_max_streams: u32,
    /// Maximum SPDY DATA frame size. Outgoing frames are split to respect the
    /// peer's limit; incoming frames exceeding this are rejected.
    pub max_frame_size: u32,
    /// Capacity of the data command channel.
    pub cmd_buffer_size: usize,
    /// Capacity of the control command channel. Control commands are drained
    /// with priority over data commands.
    pub control_buffer_size: usize,
    /// Capacity of the open-registration channel of each frame worker.
    pub reg_buffer_size: usize,
    /// Capacity of the close-registration channel. Separate from open
    /// registrations so teardown is never blocked by a burst of opens.
    pub close_reg_buffer_size: usize,
    /// Per-worker bounded queue capacity for inbound frames.
    pub worker_queue_size: usize,
    /// Interval between keepalive PINGs.
    pub ping_interval: Duration,
    /// Time to wait for a PING response before tearing down.
    pub ping_timeout: Duration,
    /// Maximum duration of a flush before tearing down.
    pub write_timeout: Duration,
    /// Time without any incoming frame before sending a probe PING.
    pub idle_timeout: Duration,
    /// Capacity of the dedicated WINDOW_UPDATE channel.
    pub window_buffer_size: usize,
    /// Per-stream inbound data channel capacity.
    pub stream_data_buffer: usize,
    /// Per-stream inbound error channel capacity.
    pub stream_error_buffer: usize,
}

impl MuxConfig {
    /// The defaults, in every field but `pool_size`.
    pub open spec fn has_default_limits(self) -> bool {
        &&& self.initial_window_size == 1_048_576
        &&& self.max_concurrent_streams == 100
        &&& self.operating_max_streams == 64
        &&& self.max_frame_size == 1_048_576
        &&& self.cmd_buffer_size == 512
        &&& self.control_buffer_size == 256
        &&& self.reg_buffer_size == 128
        &&& self.close_reg_buffer_size == 64
        &&& self.worker_queue_size == 128
        &&& duration_nanos(self.ping_interval) == 30_000_000_000
        &&& duration_nanos(self.ping_timeout) == 30_000_000_000
        &&& duration_nanos(self.write_timeout) == 30_000_000_000
        &&& duration_nanos(self.idle_timeout) == 120_000_000_000
        &&& self.window_buffer_size == 256
        &&& self.stream_data_buffer == 64
        &&& self.stream_error_buffer == 8
    }

    /// The defaults for a pool of `pool_size` connections.
    pub fn with_pool_size(pool_size: usize) -> (r: MuxConfig)
        ensures
            r.pool_size == pool_size,
            r.has_default_limits(),
    {
        MuxConfig {
            pool_size,
            initial_window_size: 1024 * 1024,
            max_concurrent_streams: 100,
            operating_max_streams: 64,
            max_frame_size: 1024 * 1024,
            cmd_buffer_size: 512,
            control_buffer_size: 256,
            reg_buffer_size: 128,
            close_reg_buffer_size: 64,
            worker_queue_size: 128,
            ping_interval: Duration::from_secs(30),
            ping_timeout: Duration::from_secs(30),
            write_timeout: Duration::from_secs(30),
            idle_timeout: Duration::from_secs(120),
            window_buffer_size: 256,
            stream_data_buffer: 64,
            stream_error_buffer: 8,
        }
    }
}

impl Clone for MuxConfig {
    fn clone(&self) -> (r: MuxConfig)
        ensures
            r == *self,
    {
        MuxConfig {
            pool_size: self.pool_size,
            initial_window_size: self.initial_window_size,
            max_concurrent_streams: self.max_concurrent_streams,
            operating_max_streams: self.operating_max_streams,
            max_frame_size: self.max_frame_size,
            cmd_buffer_size: self.cmd_buffer_size,
            control_buffer_size: self.control_buffer_size,
            reg_buffer_size: self.reg_buffer_size,
            close_reg_buffer_size: self.close_reg_buffer_size,
            worker_queue_size: self.worker_queue_size,
            ping_interval: self.ping_interval,
            ping_timeout: self.ping_timeout,
            write_timeout: self.write_timeout,
            idle_timeout: self.idle_timeout,
            window_buffer_size: self.window_buffer_size,
            stream_data_buffer: self.stream_data_buffer,
            stream_error_buffer: self.stream_error_buffer,
        }
    }
}

impl Default for MuxConfig {
    fn default() -> (r: MuxConfig)
        ensures
            r.pool_size == 1,
            r.has_default_limits(),
    {
        MuxConfig::with_pool_size(1)
    }
}

/// By default the multiplexer stops opening streams before the peer's limit
/// is reached, and a frame never exceeds a fresh send window.
pub proof fn law_default_limits_fit(config: MuxConfig)
    requires
        config.has_default_limits(),
    ensures
        config.operating_max_streams < config.max_concurrent_streams,
        config.max_frame_size <= config.initial_window_size,
{
}

} // verus!
