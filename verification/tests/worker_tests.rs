use beep_sfu::pipeline::StageKind;
use beep_sfu::pipeline::stage_order;
use beep_sfu::worker::POLL_INTERVAL_MS;
use beep_sfu::worker::RecvPoll;
use beep_sfu::worker::RecvStep;
use beep_sfu::worker::ShutdownPoll;
use beep_sfu::worker::SignalingApply;
use beep_sfu::worker::StepVerdict;
use beep_sfu::worker::TimerGate;
use beep_sfu::worker::after_receive;
use beep_sfu::worker::after_signaling;
use beep_sfu::worker::plan_wait;
use beep_sfu::worker::should_stop;
use beep_sfu::worker::tag_datagram;

#[test]
fn shutdown_terminates_the_loop() {
    assert!(should_stop(&ShutdownPoll::Received));
    assert!(should_stop(&ShutdownPoll::Disconnected));
    assert!(!should_stop(&ShutdownPoll::Quiet));
}

#[test]
fn signaling_failure_skips_the_iteration_but_keeps_the_worker() {
    assert_eq!(
        after_signaling(&SignalingApply::Failed),
        StepVerdict::NextIteration
    );
    assert_eq!(after_signaling(&SignalingApply::Applied), StepVerdict::Proceed);
    assert_eq!(
        after_signaling(&SignalingApply::NoneArrived),
        StepVerdict::Proceed
    );
}

#[test]
fn elapsed_deadline_fires_timers_at_once() {
    assert_eq!(plan_wait(1000, Some(900)), TimerGate::FireNow);
    assert_eq!(plan_wait(1000, Some(1000)), TimerGate::FireNow);
}

#[test]
fn pending_deadline_bounds_the_socket_wait() {
    assert_eq!(plan_wait(1000, Some(1030)), TimerGate::ReadFor { timeout_ms: 30 });
    assert_eq!(plan_wait(1000, Some(1001)), TimerGate::ReadFor { timeout_ms: 1 });
}

#[test]
fn wait_is_capped_at_the_polling_interval() {
    assert_eq!(
        plan_wait(1000, None),
        TimerGate::ReadFor {
            timeout_ms: POLL_INTERVAL_MS
        }
    );
    assert_eq!(
        plan_wait(1000, Some(u64::MAX - POLL_INTERVAL_MS)),
        TimerGate::ReadFor {
            timeout_ms: POLL_INTERVAL_MS
        }
    );
}

#[test]
fn receive_outcomes_are_kept_apart() {
    assert_eq!(
        after_receive(&RecvPoll::Datagram { len: 120 }),
        RecvStep::FeedPipeline
    );
    assert_eq!(after_receive(&RecvPoll::TimedOut), RecvStep::NoInput);
    assert_eq!(after_receive(&RecvPoll::Fatal), RecvStep::AbortWorker);
}

#[test]
fn datagram_is_tagged_with_its_bytes_and_arrival() {
    let buf: Vec<u8> = vec![1, 2, 3, 4, 5];
    let unit = tag_datagram(&buf, 3, 777);
    assert_eq!(unit.payload, vec![1, 2, 3]);
    assert_eq!(unit.arrival_ms, 777);
    let empty = tag_datagram(&buf, 0, 778);
    assert_eq!(empty.payload, Vec::<u8>::new());
}

#[test]
fn pipeline_stages_compose_in_the_fixed_order() {
    let order = stage_order();
    assert_eq!(
        order,
        vec![
            StageKind::Demultiplexer,
            StageKind::Stun,
            StageKind::Dtls,
            StageKind::Sctp,
            StageKind::DataChannel,
            StageKind::Srtp,
            StageKind::Interceptor,
            StageKind::Gateway,
            StageKind::ExceptionSink,
        ]
    );
    assert_eq!(order.last(), Some(&StageKind::ExceptionSink));
}
