use tokio::sync::mpsc::unbounded_channel;
use traffic_forwarder_b::target_tcp_client::target_tcp_client::read_loop;
use traffic_forwarder_b::target_tcp_client::target_tcp_client::tcp_send_loop;
use traffic_forwarder_b::target_tcp_client::target_tcp_client::ReadOutcome;
use traffic_forwarder_b::target_tcp_client::target_tcp_client::ReadStep;
use traffic_forwarder_b::target_tcp_client::target_tcp_client::SendEvent;
use traffic_forwarder_b::target_tcp_client::target_tcp_client::SendStep;
use traffic_forwarder_b::target_tcp_client::target_tcp_client::WriteOutcome;
use traffic_forwarder_b::target_tcp_client::target_tcp_client::READ_BUFFER_SIZE;
use traffic_forwarder_b::target_tcp_client::target_tcp_client::SEND_TIMEOUT_SECS;
use traffic_forwarder_b::target_tcp_client::TargetTcpCallbacks;
use traffic_forwarder_b::target_tcp_client::TargetTcpClient;
use traffic_forwarder_b::tcp_tunnel::TunnelMessage;
use traffic_forwarder_b::tcp_tunnel::TunnelSend;
use traffic_forwarder_b::tcp_tunnel::TunnelTcpConnection;

fn session_with_target(
    tunnel_connection: i32,
    id: u32,
) -> (TunnelTcpConnection, tokio::sync::mpsc::UnboundedReceiver<Option<Vec<u8>>>) {
    let mut tunnel = TunnelTcpConnection::new();
    tunnel.tunnel_is_connected(tunnel_connection);
    let (sender, receiver) = unbounded_channel();
    let client = TargetTcpClient::new(id, "h:1".to_string(), Ok(sender)).unwrap();
    tunnel.new_target_connection_established(client).unwrap();
    (tunnel, receiver)
}

fn run_write_path(
    receiver: &mut tokio::sync::mpsc::UnboundedReceiver<Option<Vec<u8>>>,
    outcomes: &[WriteOutcome],
) -> Vec<SendStep> {
    let mut steps = Vec::new();
    let mut written = 0;
    let mut step = SendStep::Receive;
    loop {
        let event = match &step {
            SendStep::Receive => SendEvent::Received(receiver.try_recv().ok()),
            SendStep::Write { .. } => {
                written += 1;
                SendEvent::Written(outcomes[written - 1])
            }
            SendStep::Shutdown => unreachable!(),
        };
        step = tcp_send_loop(event);
        match step {
            SendStep::Receive => {}
            SendStep::Write { ref payload, timeout_secs } => {
                steps.push(SendStep::Write { payload: payload.clone(), timeout_secs })
            }
            SendStep::Shutdown => {
                steps.push(SendStep::Shutdown);
                return steps;
            }
        }
    }
}

#[test]
fn limits_are_five_mebibytes_and_fifteen_seconds() {
    assert_eq!(READ_BUFFER_SIZE, 5_242_880);
    assert_eq!(SEND_TIMEOUT_SECS, 15);
}

#[test]
fn callbacks_pass_payload_upstream_under_their_id() {
    let (tunnel, _receiver) = session_with_target(6, 3);
    let callbacks = TargetTcpCallbacks::new(3);
    assert_eq!(
        callbacks.on_payload(&tunnel, vec![1]),
        Some(TunnelSend {
            tunnel_connection: 6,
            message: TunnelMessage::Payload { id: 3, payload: vec![1] },
        })
    );
    assert_eq!(TargetTcpCallbacks::new(3).on_payload(&TunnelTcpConnection::new(), vec![1]), None);
}

#[test]
fn callbacks_disconnect_their_connection_once() {
    let (mut tunnel, mut receiver) = session_with_target(6, 3);
    let callbacks = TargetTcpCallbacks::new(3);
    let disconnected = callbacks.on_disconnected(&mut tunnel).unwrap();
    assert!(disconnected.connection.is_disconnected());
    assert_eq!(
        disconnected.notification,
        Some(TunnelSend { tunnel_connection: 6, message: TunnelMessage::Disconnected(3) })
    );
    assert!(callbacks.on_disconnected(&mut tunnel).is_none());
    assert_eq!(receiver.try_recv(), Ok(None));
}

#[test]
fn read_bytes_go_upstream_and_the_path_reads_on() {
    let (mut tunnel, _receiver) = session_with_target(6, 3);
    let callbacks = TargetTcpCallbacks::new(3);
    let buffer = vec![10, 20, 30, 40];
    match read_loop(&callbacks, &mut tunnel, &buffer, ReadOutcome::Read(3)) {
        ReadStep::Forward(send) => assert_eq!(
            send,
            TunnelSend {
                tunnel_connection: 6,
                message: TunnelMessage::Payload { id: 3, payload: vec![10, 20, 30] },
            }
        ),
        other => panic!("{:?}", other),
    }
    match read_loop(&callbacks, &mut tunnel, &buffer, ReadOutcome::Read(4)) {
        ReadStep::Forward(send) => assert_eq!(
            send.message,
            TunnelMessage::Payload { id: 3, payload: vec![10, 20, 30, 40] }
        ),
        other => panic!("{:?}", other),
    }
    assert!(tunnel.send_payload_to_target(3, vec![1]));
}

#[test]
fn end_of_stream_stops_the_read_path_and_disconnects() {
    let (mut tunnel, mut receiver) = session_with_target(6, 3);
    let callbacks = TargetTcpCallbacks::new(3);
    match read_loop(&callbacks, &mut tunnel, &[0u8; 8], ReadOutcome::Read(0)) {
        ReadStep::Stop(Some(target)) => {
            assert!(target.connection.is_disconnected());
            assert_eq!(
                target.notification,
                Some(TunnelSend { tunnel_connection: 6, message: TunnelMessage::Disconnected(3) })
            );
        }
        other => panic!("{:?}", other),
    }
    assert_eq!(receiver.try_recv(), Ok(None));
    assert!(!tunnel.send_payload_to_target(3, vec![1]));
}

#[test]
fn failed_read_stops_the_read_path_and_disconnects() {
    let (mut tunnel, mut receiver) = session_with_target(6, 3);
    let callbacks = TargetTcpCallbacks::new(3);
    match read_loop(&callbacks, &mut tunnel, &[0u8; 8], ReadOutcome::Failed) {
        ReadStep::Stop(Some(target)) => {
            assert_eq!(target.connection.id(), 3);
            assert!(target.notification.is_some());
        }
        other => panic!("{:?}", other),
    }
    assert_eq!(receiver.try_recv(), Ok(None));
}

#[test]
fn read_path_stops_when_no_session_is_up() {
    let (mut tunnel, _receiver) = session_with_target(6, 3);
    tunnel.tunnel_is_disconnected();
    let callbacks = TargetTcpCallbacks::new(3);
    assert_eq!(tunnel.send_payload_to_tunnel(3, vec![1, 2]), None);
    assert!(matches!(
        read_loop(&callbacks, &mut tunnel, &[1, 2], ReadOutcome::Read(2)),
        ReadStep::Stop(None)
    ));
}

#[test]
fn read_path_of_replaced_session_stops_without_notification() {
    let (mut tunnel, _receiver) = session_with_target(6, 3);
    tunnel.tunnel_is_connected(7);
    let callbacks = TargetTcpCallbacks::new(3);
    assert!(matches!(
        read_loop(&callbacks, &mut tunnel, &[1, 2], ReadOutcome::Read(0)),
        ReadStep::Stop(None)
    ));
}

#[test]
fn write_path_writes_bytes_with_the_time_limit() {
    assert_eq!(
        tcp_send_loop(SendEvent::Received(Some(Some(vec![1, 2])))),
        SendStep::Write { payload: vec![1, 2], timeout_secs: 15 }
    );
    assert_eq!(
        tcp_send_loop(SendEvent::Received(Some(Some(vec![])))),
        SendStep::Write { payload: vec![], timeout_secs: 15 }
    );
}

#[test]
fn write_path_shuts_down_on_sentinel_and_on_closed_queue() {
    assert_eq!(tcp_send_loop(SendEvent::Received(Some(None))), SendStep::Shutdown);
    assert_eq!(tcp_send_loop(SendEvent::Received(None)), SendStep::Shutdown);
}

#[test]
fn write_path_goes_on_after_a_write_and_shuts_down_after_a_failure() {
    assert_eq!(tcp_send_loop(SendEvent::Written(WriteOutcome::Written)), SendStep::Receive);
    assert_eq!(tcp_send_loop(SendEvent::Written(WriteOutcome::TimedOut)), SendStep::Shutdown);
    assert_eq!(tcp_send_loop(SendEvent::Written(WriteOutcome::Failed)), SendStep::Shutdown);
}

#[test]
fn write_path_writes_all_payloads_before_the_sentinel_in_order() {
    let (sender, mut receiver) = unbounded_channel();
    let mut client = TargetTcpClient::new(1, "h:1".to_string(), Ok(sender)).unwrap();
    assert!(client.send_payload(vec![1]));
    assert!(client.send_payload(vec![2, 2]));
    assert!(client.send_payload(vec![3, 3, 3]));
    assert!(client.disconnect());
    assert!(client.send_payload(vec![4]));
    let steps = run_write_path(&mut receiver, &[WriteOutcome::Written; 3]);
    assert_eq!(
        steps,
        vec![
            SendStep::Write { payload: vec![1], timeout_secs: 15 },
            SendStep::Write { payload: vec![2, 2], timeout_secs: 15 },
            SendStep::Write { payload: vec![3, 3, 3], timeout_secs: 15 },
            SendStep::Shutdown,
        ]
    );
}

#[test]
fn write_path_ends_at_the_first_write_that_times_out() {
    let (sender, mut receiver) = unbounded_channel();
    let mut client = TargetTcpClient::new(1, "h:1".to_string(), Ok(sender)).unwrap();
    assert!(client.send_payload(vec![1]));
    assert!(client.send_payload(vec![2]));
    assert!(client.send_payload(vec![3]));
    let steps =
        run_write_path(&mut receiver, &[WriteOutcome::Written, WriteOutcome::TimedOut]);
    assert_eq!(
        steps,
        vec![
            SendStep::Write { payload: vec![1], timeout_secs: 15 },
            SendStep::Write { payload: vec![2], timeout_secs: 15 },
            SendStep::Shutdown,
        ]
    );
}

#[test]
fn write_path_shuts_down_when_the_connection_is_dropped() {
    let (sender, mut receiver) = unbounded_channel();
    let mut client = TargetTcpClient::new(1, "h:1".to_string(), Ok(sender)).unwrap();
    assert!(client.send_payload(vec![1]));
    drop(client);
    let steps = run_write_path(&mut receiver, &[WriteOutcome::Written]);
    assert_eq!(
        steps,
        vec![SendStep::Write { payload: vec![1], timeout_secs: 15 }, SendStep::Shutdown]
    );
}

#[test]
fn lost_session_shuts_the_target_socket_down() {
    let (mut tunnel, mut receiver) = session_with_target(1, 3);
    let disposed = tunnel.tunnel_is_disconnected().unwrap();
    assert!(disposed[&3].is_disconnected());
    assert_eq!(run_write_path(&mut receiver, &[]), vec![SendStep::Shutdown]);
}
