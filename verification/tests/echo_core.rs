use echo_server::addr::{domain, Endpoint, IpAddress, IpDomain};
use echo_server::buffer::copy_prefix;
use echo_server::datagram_echo::{datagram_step, DatagramAction, RecvEvent};
use echo_server::errors::{classify, ErrorClass, IoErrorKind, WorkerError};
use echo_server::provision::{provision_plan, socket_config, Scheduling, SocketSpec, Transport, BACKLOG};
use echo_server::stream_echo::{stream_step, AcceptAction, AcceptEvent, EchoSession, WorkerState};
use echo_server::supervisor::supervise;

fn loopback(port: u16) -> Endpoint {
    Endpoint { ip: IpAddress::V4([127, 0, 0, 1]), port }
}

#[test]
fn domain_of_v4_endpoint() {
    assert_eq!(domain(&loopback(7)), IpDomain::V4);
}

#[test]
fn domain_of_v6_endpoint() {
    let mut octets = [0u8; 16];
    octets[15] = 1;
    let e = Endpoint { ip: IpAddress::V6(octets), port: 7 };
    assert_eq!(domain(&e), IpDomain::V6);
}

#[test]
fn stream_socket_config_listens_nonblocking() {
    let c = socket_config(Transport::Stream, Scheduling::Cooperative);
    assert!(c.reuse_address);
    assert!(c.reuse_port);
    assert!(c.non_blocking);
    assert_eq!(c.backlog, Some(1024));
    assert_eq!(BACKLOG, 1024);
}

#[test]
fn datagram_socket_config_blocking_thread() {
    let c = socket_config(Transport::Datagram, Scheduling::DedicatedThread);
    assert!(c.reuse_address);
    assert!(c.reuse_port);
    assert!(!c.non_blocking);
    assert_eq!(c.backlog, None);
}

#[test]
fn datagram_socket_config_readiness_driven() {
    let c = socket_config(Transport::Datagram, Scheduling::Cooperative);
    assert!(c.non_blocking);
    assert_eq!(c.backlog, None);
}

#[test]
fn plan_fans_out_over_one_address() {
    let e = loopback(7);
    let plan: Vec<SocketSpec> = provision_plan(&e, Transport::Stream, Scheduling::Cooperative, 4);
    assert_eq!(plan.len(), 4);
    for (i, spec) in plan.iter().enumerate() {
        assert_eq!(spec.ordinal, i);
        assert_eq!(spec.endpoint, e);
        assert_eq!(spec.domain, IpDomain::V4);
        assert_eq!(spec.transport, Transport::Stream);
        assert!(spec.config.reuse_address);
        assert!(spec.config.reuse_port);
        assert_eq!(spec.config.backlog, Some(1024));
    }
}

#[test]
fn zero_workers_means_no_sockets() {
    let e = loopback(7);
    let stream_plan = provision_plan(&e, Transport::Stream, Scheduling::Cooperative, 0);
    let datagram_plan = provision_plan(&e, Transport::Datagram, Scheduling::DedicatedThread, 0);
    assert!(stream_plan.is_empty());
    assert!(datagram_plan.is_empty());
}

#[test]
fn would_block_and_interrupted_are_transient() {
    assert_eq!(classify(IoErrorKind::WouldBlock), ErrorClass::Transient);
    assert_eq!(classify(IoErrorKind::Interrupted), ErrorClass::Transient);
}

#[test]
fn other_failures_are_fatal() {
    assert_eq!(classify(IoErrorKind::ConnectionReset), ErrorClass::Fatal);
    assert_eq!(classify(IoErrorKind::ConnectionAborted), ErrorClass::Fatal);
    assert_eq!(classify(IoErrorKind::AddrInUse), ErrorClass::Fatal);
    assert_eq!(classify(IoErrorKind::PermissionDenied), ErrorClass::Fatal);
    assert_eq!(classify(IoErrorKind::TimedOut), ErrorClass::Fatal);
    assert_eq!(classify(IoErrorKind::Other), ErrorClass::Fatal);
}

#[test]
fn datagram_is_answered_with_its_own_length() {
    let action = datagram_step(&RecvEvent::Datagram { len: 11 });
    assert_eq!(action, DatagramAction::Reply { len: 11 });
}

#[test]
fn transient_receive_failure_is_retried() {
    assert_eq!(
        datagram_step(&RecvEvent::Failed { kind: IoErrorKind::WouldBlock }),
        DatagramAction::Retry
    );
    assert_eq!(
        datagram_step(&RecvEvent::Failed { kind: IoErrorKind::Interrupted }),
        DatagramAction::Retry
    );
}

#[test]
fn fatal_receive_failure_terminates_the_worker() {
    assert_eq!(
        datagram_step(&RecvEvent::Failed { kind: IoErrorKind::ConnectionReset }),
        DatagramAction::Terminate { kind: IoErrorKind::ConnectionReset }
    );
}

#[test]
fn datagram_payload_is_echoed_exactly() {
    let mut buf = b"hello world".to_vec();
    buf.resize(1024, 0);
    let reply = copy_prefix(&buf, 11);
    assert_eq!(reply, b"hello world".to_vec());
}

#[test]
fn zero_payload() {
    let buf = vec![0u8; 1024];
    let reply = copy_prefix(&buf, 0);
    assert!(reply.is_empty());
}

#[test]
fn stream_echoes_hello_world() {
    let mut session = EchoSession::new();
    let mut buf = b"hello world".to_vec();
    buf.resize(1024, 0);
    let reply = session.process_chunk(&buf, 11);
    assert_eq!(reply, b"hello world".to_vec());
}

#[test]
fn stream_echo_is_chunking_independent() {
    let mut session = EchoSession::new();
    let mut echoed: Vec<u8> = Vec::new();
    for chunk in [&b"he"[..], &b"llo "[..], &b"world"[..]] {
        let buf = chunk.to_vec();
        let reply = session.process_chunk(&buf, buf.len());
        assert_eq!(reply, chunk.to_vec());
        echoed.extend_from_slice(&reply);
    }
    assert_eq!(echoed, b"hello world".to_vec());
}

#[test]
fn accept_failure_keeps_the_worker_listening() {
    let (state, action) = stream_step(
        WorkerState::Listening,
        &AcceptEvent::AcceptFailed { kind: IoErrorKind::ConnectionAborted },
    );
    assert_eq!(state, WorkerState::Listening);
    assert_eq!(action, AcceptAction::LogAndContinue);
    let (state, action) = stream_step(state, &AcceptEvent::Accepted);
    assert_eq!(state, WorkerState::Listening);
    assert_eq!(action, AcceptAction::SpawnEchoTask);
}

#[test]
fn closed_socket_terminates_the_worker() {
    let (state, action) = stream_step(WorkerState::Listening, &AcceptEvent::SocketClosed);
    assert_eq!(state, WorkerState::Terminated);
    assert_eq!(action, AcceptAction::Stop);
}

#[test]
fn concurrent_connections_stay_separate() {
    let mut first = EchoSession::new();
    let mut second = EchoSession::new();
    let a1 = first.process_chunk(&b"aaa".to_vec(), 3);
    let b1 = second.process_chunk(&b"zz".to_vec(), 2);
    let a2 = first.process_chunk(&b"bb".to_vec(), 2);
    let b2 = second.process_chunk(&b"yyyy".to_vec(), 4);
    let mut first_echoed = a1.clone();
    first_echoed.extend_from_slice(&a2);
    let mut second_echoed = b1.clone();
    second_echoed.extend_from_slice(&b2);
    assert_eq!(first_echoed, b"aaabb".to_vec());
    assert_eq!(second_echoed, b"zzyyyy".to_vec());
}

#[test]
fn supervisor_reports_success_when_all_workers_succeed() {
    let outcomes: Vec<Result<(), WorkerError>> = vec![Ok(()), Ok(()), Ok(())];
    assert_eq!(supervise(&outcomes), Ok(()));
}

#[test]
fn supervisor_with_no_workers_reports_success() {
    let outcomes: Vec<Result<(), WorkerError>> = Vec::new();
    assert_eq!(supervise(&outcomes), Ok(()));
}

#[test]
fn supervisor_reports_the_first_failure() {
    let first_failure = WorkerError {
        transport: Transport::Datagram,
        ordinal: 1,
        kind: IoErrorKind::ConnectionReset,
    };
    let later_failure = WorkerError {
        transport: Transport::Stream,
        ordinal: 0,
        kind: IoErrorKind::Other,
    };
    let outcomes: Vec<Result<(), WorkerError>> =
        vec![Ok(()), Err(first_failure), Ok(()), Err(later_failure)];
    assert_eq!(supervise(&outcomes), Err(first_failure));
}
