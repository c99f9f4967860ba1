use kube_portforward::spdy::commands::MuxCommand;
use kube_portforward::spdy::config::MuxConfig;
use kube_portforward::spdy::write::{
    broken_pipe, clamp_write, encode_data_frame, fin_command, poll_shutdown_opened,
    poll_write_via_sender, shutdown_next, write_command, ReservePoll, ShutdownEvent, ShutdownStage,
    StreamError, WriteEvent, WriteStage,
};
use kube_portforward::text::{clone_opt, opt_str_eq, str_eq, to_decimal};
use std::time::Duration;

#[test]
fn data_frame_layout() {
    let frame = encode_data_frame(0x8102_0304, b"hey");
    assert_eq!(&frame[..], &[1, 2, 3, 4, 0, 0, 0, 3, b'h', b'e', b'y'][..]);
    assert_eq!(&encode_data_frame(7, b"")[..], &[0, 0, 0, 7, 0, 0, 0, 0][..]);
    let long = vec![9u8; 0x01_0203];
    assert_eq!(&encode_data_frame(1, &long)[4..8], &[0, 1, 2, 3][..]);
}

#[test]
fn writes_are_clamped() {
    assert_eq!(clamp_write(100, 1000, 1024), 100);
    assert_eq!(clamp_write(100, 40, 1024), 40);
    assert_eq!(clamp_write(100, 1000, 30), 22);
    assert_eq!(clamp_write(100, -5, 1024), 0);
    assert_eq!(clamp_write(100, 0, 1024), 0);
    // a limit without room for a payload does not apply
    assert_eq!(clamp_write(100, 1000, 8), 100);
    assert_eq!(clamp_write(100, 1000, 9), 1);
    assert_eq!(clamp_write(0, 1000, 1024), 0);
}

#[test]
fn an_answer_to_another_stage_changes_nothing() {
    let next = poll_write_via_sender(WriteStage::Reserve, WriteEvent::Window(5), 10, 1024);
    assert_eq!(next, WriteStage::Reserve);
    let next = poll_write_via_sender(WriteStage::Pending, WriteEvent::Sent(true), 10, 1024);
    assert_eq!(next, WriteStage::Pending);
    let next = poll_write_via_sender(WriteStage::Debit { n: 3 }, WriteEvent::Debited(false), 10, 9);
    assert_eq!(next, WriteStage::BrokenPipe);
    let next = poll_write_via_sender(WriteStage::Send { n: 3 }, WriteEvent::Sent(false), 10, 9);
    assert_eq!(next, WriteStage::BrokenPipe);
    let recheck = WriteEvent::Rechecked { closed: true, available: 9 };
    let next = poll_write_via_sender(WriteStage::RegisterWaker, recheck, 10, 1024);
    assert_eq!(next, WriteStage::BrokenPipe);
    let recheck = WriteEvent::Rechecked { closed: false, available: 9 };
    let next = poll_write_via_sender(WriteStage::RegisterWaker, recheck, 10, 1024);
    assert_eq!(next, WriteStage::Debit { n: 9 });
}

#[test]
fn write_command_carries_the_prefix() {
    match write_command(5, b"abcdef", 4) {
        MuxCommand::SendRawFrame { frame } => {
            assert_eq!(&frame[..], &[0, 0, 0, 5, 0, 0, 0, 4, b'a', b'b', b'c', b'd'][..]);
        }
        _ => panic!("expected a raw frame"),
    }
}

#[test]
fn shutdown_marks_the_stream_once_the_fin_is_sent() {
    let mut graceful = false;
    assert_eq!(poll_shutdown_opened(graceful), ShutdownStage::Reserve);
    let pending = ShutdownEvent::Reserve(ReservePoll::Pending);
    assert_eq!(shutdown_next(ShutdownStage::Reserve, pending, &mut graceful), ShutdownStage::Pending);
    let ready = ShutdownEvent::Reserve(ReservePoll::Ready);
    let stage = shutdown_next(ShutdownStage::Reserve, ready, &mut graceful);
    assert_eq!(stage, ShutdownStage::SendFin);
    let refused = shutdown_next(stage, ShutdownEvent::Sent(false), &mut graceful);
    assert_eq!(refused, ShutdownStage::BrokenPipe);
    assert!(!graceful);
    assert_eq!(shutdown_next(stage, ShutdownEvent::Sent(true), &mut graceful), ShutdownStage::Ready);
    assert!(graceful);
    assert_eq!(poll_shutdown_opened(graceful), ShutdownStage::Ready);
    match fin_command(9) {
        MuxCommand::SendData { stream_id, payload, fin } => {
            assert_eq!(stream_id, 9);
            assert!(payload.is_empty());
            assert!(fin);
        }
        _ => panic!("expected a data command"),
    }
    assert_eq!(broken_pipe(), StreamError::BrokenPipe);
}

#[test]
fn default_limits() {
    let config = MuxConfig::default();
    assert_eq!(config.pool_size, 1);
    assert_eq!(config.initial_window_size, 1024 * 1024);
    assert_eq!(config.max_concurrent_streams, 100);
    assert_eq!(config.operating_max_streams, 64);
    assert_eq!(config.max_frame_size, 1024 * 1024);
    assert_eq!(config.cmd_buffer_size, 512);
    assert_eq!(config.control_buffer_size, 256);
    assert_eq!(config.reg_buffer_size, 128);
    assert_eq!(config.close_reg_buffer_size, 64);
    assert_eq!(config.worker_queue_size, 128);
    assert_eq!(config.ping_interval, Duration::from_secs(30));
    assert_eq!(config.ping_timeout, Duration::from_secs(30));
    assert_eq!(config.write_timeout, Duration::from_secs(30));
    assert_eq!(config.idle_timeout, Duration::from_secs(120));
    assert_eq!(config.window_buffer_size, 256);
    assert_eq!(config.stream_data_buffer, 64);
    assert_eq!(config.stream_error_buffer, 8);
    let copy = MuxConfig::with_pool_size(4).clone();
    assert_eq!(copy.pool_size, 4);
    assert_eq!(copy.idle_timeout, config.idle_timeout);
}

#[test]
fn decimal_numbers_and_text() {
    assert_eq!(to_decimal(0), "0");
    assert_eq!(to_decimal(9), "9");
    assert_eq!(to_decimal(10), "10");
    assert_eq!(to_decimal(8080), "8080");
    assert_eq!(to_decimal(u64::MAX), "18446744073709551615");
    assert!(str_eq("a", "a"));
    assert!(!str_eq("a", "b"));
    assert!(opt_str_eq(&None, &None));
    assert!(!opt_str_eq(&Some("a".to_string()), &None));
    assert!(opt_str_eq(&Some("a".to_string()), &Some("a".to_string())));
    assert_eq!(clone_opt(&Some("x".to_string())).as_deref(), Some("x"));
}
