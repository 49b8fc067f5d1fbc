use countersyncd::connect::{ConnectPlan, ConnectStep, StepResult};
use countersyncd::control_netlink::{ControlEvent, ControlNetlink, NetlinkCommand, SocketConnect};
use countersyncd::data_netlink::{
    classify, Action, DataNetlink, ReceiveEvent, Received, BUFFER_SIZE, DEBUG_LOG_INTERVAL,
    ENOBUFS, MAX_LOCAL_RECONNECT_ATTEMPTS, SOCKET_READINESS_TIMEOUT_MS,
};

const KEPT: Action = Action::Connect {
    keep_resolver: true,
};

const FRESH: Action = Action::Connect {
    keep_resolver: false,
};

fn create_mock_netlink_message(payload: &[u8]) -> Vec<u8> {
    let mut msg = vec![0u8; 100];
    let total_len = 20 + payload.len();
    msg[0] = (total_len & 0xFF) as u8;
    msg[1] = ((total_len >> 8) & 0xFF) as u8;
    msg[2] = ((total_len >> 16) & 0xFF) as u8;
    msg[3] = ((total_len >> 24) & 0xFF) as u8;
    msg[4] = 0x10;
    msg[8] = 0x01;
    msg[16] = 0x01;
    let mut i = 0;
    while i < payload.len() && i < 80 {
        msg[20 + i] = payload[i];
        i += 1;
    }
    msg
}

struct MockSocket {
    budget: usize,
    messages: Vec<Vec<u8>>,
}

struct MockKernel {
    socket_count: usize,
    empty_reads_would_block: bool,
}

impl MockKernel {
    fn connect(&mut self) -> MockSocket {
        self.socket_count += 1;
        let messages = if self.socket_count == 1 {
            vec![
                create_mock_netlink_message(b"PARTIALLY_VALID1"),
                create_mock_netlink_message(b"PARTIALLY_VALID2"),
                vec![],
                create_mock_netlink_message(b"PARTIALLY_VALID3"),
            ]
        } else {
            vec![
                create_mock_netlink_message(b"VALID1"),
                create_mock_netlink_message(b"VALID2"),
            ]
        };
        MockSocket {
            budget: messages.len(),
            messages,
        }
    }

    fn recv(&self, socket: &mut MockSocket) -> ReceiveEvent {
        if socket.budget == 0 {
            return if self.empty_reads_would_block {
                ReceiveEvent::Failed {
                    os_error: None,
                    would_block: true,
                }
            } else {
                ReceiveEvent::Datagram(vec![])
            };
        }
        let msg = socket.messages[socket.messages.len() - socket.budget].clone();
        socket.budget -= 1;
        if msg.is_empty() {
            ReceiveEvent::Failed {
                os_error: None,
                would_block: false,
            }
        } else {
            ReceiveEvent::Datagram(msg)
        }
    }
}

fn run_rounds(
    state: &mut DataNetlink,
    kernel: &mut MockKernel,
    socket: &mut Option<MockSocket>,
    rounds: usize,
    wanted: usize,
    received: &mut Vec<String>,
) {
    for _ in 0..rounds {
        if received.len() >= wanted {
            break;
        }
        state.on_round();
        let event = match socket.as_mut() {
            Some(s) => kernel.recv(s),
            None => continue,
        };
        match state.on_receive(classify(&event)) {
            Action::Deliver(payload) => received.push(String::from_utf8(payload).unwrap()),
            Action::Connect { .. } => {
                *socket = Some(kernel.connect());
                state.on_connect_result(true);
            }
            Action::Disconnect => *socket = None,
            Action::Idle => {}
            Action::Stop => break,
        }
    }
}

#[test]
fn test_data_netlink() {
    let mut kernel = MockKernel {
        socket_count: 0,
        empty_reads_would_block: true,
    };
    let mut state = DataNetlink::new("family", "group");
    let mut socket = Some(kernel.connect());
    state.on_connect_result(true);

    let mut received_messages = Vec::new();
    run_rounds(
        &mut state,
        &mut kernel,
        &mut socket,
        100,
        2,
        &mut received_messages,
    );
    match state.on_command(NetlinkCommand::Reconnect) {
        Action::Connect { .. } => {
            socket = Some(kernel.connect());
            state.on_connect_result(true);
        }
        _ => {}
    }
    run_rounds(
        &mut state,
        &mut kernel,
        &mut socket,
        100,
        3,
        &mut received_messages,
    );

    let expected_messages = vec![
        "PARTIALLY_VALID1".to_string(),
        "PARTIALLY_VALID2".to_string(),
        "VALID1".to_string(),
    ];
    assert_eq!(received_messages, expected_messages);
    assert!(kernel.socket_count > 1, "Socket should have reconnected");

    assert_eq!(state.on_command(NetlinkCommand::Close), Action::Stop);
}

#[test]
fn test_netlink() {
    let mut kernel = MockKernel {
        socket_count: 0,
        empty_reads_would_block: false,
    };
    let mut state = DataNetlink::new("family", "group");
    let mut socket = Some(kernel.connect());
    state.on_connect_result(true);

    let mut received_messages = Vec::new();
    run_rounds(
        &mut state,
        &mut kernel,
        &mut socket,
        100,
        4,
        &mut received_messages,
    );

    let expected_messages = vec![
        "PARTIALLY_VALID1".to_string(),
        "PARTIALLY_VALID2".to_string(),
        "VALID1".to_string(),
        "VALID2".to_string(),
    ];
    assert_eq!(received_messages, expected_messages);
    assert!(kernel.socket_count > 1, "Socket should have reconnected");
}

#[test]
fn reconnect_trigger() {
    let mut control = ControlNetlink::new("sonic_stel");
    let mut data = DataNetlink::new("sonic_stel", "ipfix");
    data.on_connect_result(true);
    assert_eq!(
        data.on_receive(Received::Payload(vec![1])),
        Action::Deliver(vec![1])
    );

    let mut commands = Vec::new();
    if let Some(command) = control.on_event(&ControlEvent::NewFamily("sonic_stel".to_string()))
    {
        commands.push(command);
    }
    assert_eq!(commands, vec![NetlinkCommand::Reconnect]);
    assert!(control.is_registered());

    let mut sockets_opened = 1;
    for command in commands {
        if data.on_command(command) == KEPT {
            assert!(!data.is_connected());
            sockets_opened += 1;
            data.on_connect_result(true);
        }
    }
    assert_eq!(sockets_opened, 2);
    assert!(data.is_connected());
    assert_eq!(data.family(), "sonic_stel");
    assert_eq!(data.group(), "ipfix");
}

#[test]
fn health_based_reconnect() {
    let mut data = DataNetlink::new("sonic_stel", "ipfix");
    data.on_connect_result(true);
    assert_eq!(
        data.on_receive(Received::Payload(vec![1, 2])),
        Action::Deliver(vec![1, 2])
    );
    for _ in 0..1100 {
        data.on_round();
        assert_eq!(data.on_receive(Received::NoData), Action::Idle);
    }
    assert!(data.is_connected());
    assert_eq!(data.consecutive_failures(), 0);
    assert_eq!(data.on_command(NetlinkCommand::Reconnect), KEPT);
    assert!(!data.is_connected());
    data.on_connect_result(true);
    assert!(data.is_connected());
}

#[test]
fn a_socket_with_recent_data_is_rebuilt_too() {
    let mut data = DataNetlink::new("f", "g");
    data.on_connect_result(true);
    let _ = data.on_receive(Received::Payload(vec![1]));
    assert_eq!(data.on_command(NetlinkCommand::Reconnect), KEPT);
    assert!(!data.is_connected());
    data.on_connect_result(true);
    assert_eq!(data.on_command(NetlinkCommand::Reconnect), KEPT);
    assert!(!data.is_connected());
}

#[test]
fn a_socket_without_data_yet_is_rebuilt_too() {
    let mut data = DataNetlink::new("f", "g");
    data.on_connect_result(true);
    assert_eq!(data.on_command(NetlinkCommand::Reconnect), KEPT);
    assert!(!data.is_connected());
    data.on_connect_result(true);
    assert!(data.is_connected());
}

#[test]
fn a_reconnect_without_a_socket_connects() {
    let mut data = DataNetlink::new("f", "g");
    assert!(!data.is_connected());
    assert_eq!(data.on_command(NetlinkCommand::Reconnect), KEPT);
    data.on_connect_result(false);
    assert!(!data.is_connected());
    assert_eq!(data.on_command(NetlinkCommand::Reconnect), KEPT);
}

#[test]
fn socket_connect_takes_the_new_family_and_group() {
    let mut data = DataNetlink::new("f", "g");
    assert_eq!(data.family(), "f");
    assert_eq!(data.group(), "g");
    let command = NetlinkCommand::SocketConnect(SocketConnect {
        family: "family2".to_string(),
        group: "group2".to_string(),
    });
    assert_eq!(data.on_command(command), KEPT);
    assert_eq!(data.family(), "family2");
    assert_eq!(data.group(), "group2");
    data.on_connect_result(true);
    let _ = data.on_receive(Received::Payload(vec![1]));
    let command = NetlinkCommand::SocketConnect(SocketConnect {
        family: "family3".to_string(),
        group: "group3".to_string(),
    });
    assert_eq!(data.on_command(command), KEPT);
    assert!(!data.is_connected());
    assert_eq!(data.family(), "family3");
    assert_eq!(data.group(), "group3");
    data.on_connect_result(false);
    assert!(!data.is_connected());
    assert_eq!(data.family(), "family3");
    assert_eq!(data.group(), "group3");
}

#[test]
fn a_closed_command_queue_stops_the_owner() {
    let mut data = DataNetlink::new("f", "g");
    assert_eq!(data.on_queue_closed(), Action::Stop);
    data.on_connect_result(true);
    assert_eq!(data.on_queue_closed(), Action::Stop);
    assert_eq!(data.on_command(NetlinkCommand::Close), Action::Stop);
    assert!(data.is_connected());
}

#[test]
fn three_quick_reconnects_and_then_waiting() {
    let mut data = DataNetlink::new("f", "g");
    data.on_connect_result(true);
    for attempt in 1..=MAX_LOCAL_RECONNECT_ATTEMPTS {
        assert_eq!(data.on_receive(Received::SocketError), FRESH);
        assert_eq!(data.consecutive_failures(), attempt);
        assert!(!data.is_connected());
        data.on_connect_result(true);
    }
    assert_eq!(
        data.on_receive(Received::SocketError),
        Action::Disconnect
    );
    assert_eq!(data.consecutive_failures(), 4);
    assert!(!data.is_connected());
    assert_eq!(data.on_receive(Received::SocketError), Action::Idle);
    assert_eq!(data.on_receive(Received::Payload(vec![1])), Action::Idle);
    assert_eq!(data.consecutive_failures(), 4);
    assert_eq!(data.on_command(NetlinkCommand::Reconnect),
        KEPT);
    assert_eq!(data.consecutive_failures(), 0);
}

#[test]
fn a_payload_starts_the_failure_count_anew() {
    let mut data = DataNetlink::new("f", "g");
    data.on_connect_result(true);
    assert_eq!(data.on_receive(Received::SocketError), FRESH);
    data.on_connect_result(true);
    assert_eq!(data.on_receive(Received::SocketError), FRESH);
    data.on_connect_result(true);
    assert_eq!(data.consecutive_failures(), 2);
    assert_eq!(data.on_receive(Received::BufferFull), Action::Idle);
    assert_eq!(data.on_receive(Received::NoData), Action::Idle);
    assert_eq!(data.consecutive_failures(), 2);
    assert_eq!(
        data.on_receive(Received::Payload(vec![9])),
        Action::Deliver(vec![9])
    );
    assert_eq!(data.consecutive_failures(), 0);
}

#[test]
fn every_three_thousandth_round_forgets_the_failures() {
    let mut data = DataNetlink::new("f", "g");
    data.on_connect_result(true);
    assert_eq!(data.on_receive(Received::SocketError), FRESH);
    data.on_connect_result(true);
    for _ in 0..DEBUG_LOG_INTERVAL - 1 {
        data.on_round();
    }
    assert_eq!(data.consecutive_failures(), 1);
    data.on_round();
    assert_eq!(data.consecutive_failures(), 0);

    assert_eq!(data.on_receive(Received::SocketError), FRESH);
    data.on_connect_result(false);
    for _ in 0..2 * DEBUG_LOG_INTERVAL {
        data.on_round();
    }
    assert_eq!(data.consecutive_failures(), 1);
}

#[test]
fn receives_are_told_apart() {
    let datagram = create_mock_netlink_message(b"DATA");
    assert_eq!(
        classify(&ReceiveEvent::Datagram(datagram)),
        Received::Payload(b"DATA".to_vec())
    );
    assert_eq!(
        classify(&ReceiveEvent::Datagram(vec![])),
        Received::SocketError
    );
    assert_eq!(
        classify(&ReceiveEvent::Datagram(vec![0; 10])),
        Received::SocketError
    );
    assert_eq!(
        classify(&ReceiveEvent::Datagram(vec![0; 30])),
        Received::SocketError
    );
    let failed = |os_error, would_block| ReceiveEvent::Failed {
        os_error,
        would_block,
    };
    assert_eq!(classify(&failed(Some(ENOBUFS), false)), Received::BufferFull);
    assert_eq!(classify(&failed(Some(105), true)), Received::BufferFull);
    assert_eq!(classify(&failed(Some(11), true)), Received::NoData);
    assert_eq!(classify(&failed(None, true)), Received::NoData);
    assert_eq!(classify(&failed(Some(104), false)), Received::SocketError);
    assert_eq!(classify(&failed(None, false)), Received::SocketError);
}

#[test]
fn the_limits_of_the_data_socket() {
    assert_eq!(BUFFER_SIZE, 64 * 1024);
    assert_eq!(ENOBUFS, 105);
    assert_eq!(MAX_LOCAL_RECONNECT_ATTEMPTS, 3);
    assert_eq!(DEBUG_LOG_INTERVAL, 3000);
    assert_eq!(SOCKET_READINESS_TIMEOUT_MS, 10);
}

#[test]
fn each_registration_gives_one_reconnect() {
    let mut control = ControlNetlink::new("sonic_stel");
    assert!(!control.is_registered());
    let new = ControlEvent::NewFamily("sonic_stel".to_string());
    let del = ControlEvent::DelFamily("sonic_stel".to_string());
    assert_eq!(control.on_event(&new), Some(NetlinkCommand::Reconnect));
    assert_eq!(control.on_event(&new), None);
    assert!(control.is_registered());
    assert_eq!(control.on_event(&del), None);
    assert!(!control.is_registered());
    assert_eq!(control.on_event(&del), None);
    assert_eq!(control.on_event(&new), Some(NetlinkCommand::Reconnect));
}

#[test]
fn other_families_are_not_watched() {
    let mut control = ControlNetlink::new("sonic_stel");
    assert_eq!(
        control.on_event(&ControlEvent::NewFamily("nl80211".to_string())),
        None
    );
    assert!(!control.is_registered());
    let _ = control.on_event(&ControlEvent::NewFamily("sonic_stel".to_string()));
    assert_eq!(
        control.on_event(&ControlEvent::DelFamily("sonic_ste".to_string())),
        None
    );
    assert!(control.is_registered());
}

fn walk(has_resolver: bool, results: &[StepResult]) -> Vec<ConnectStep> {
    let mut plan = ConnectPlan::start(has_resolver);
    let mut steps = vec![plan.step()];
    for result in results {
        steps.push(plan.advance(*result));
    }
    steps
}

#[test]
fn a_kept_resolver_is_tried_first() {
    assert_eq!(
        walk(
            true,
            &[StepResult::Resolved(7), StepResult::Done, StepResult::Done]
        ),
        vec![
            ConnectStep::ResolveGroup,
            ConnectStep::OpenSocket,
            ConnectStep::JoinGroup(7),
            ConnectStep::Finished { connected: true },
        ]
    );
}

#[test]
fn a_stale_resolver_is_made_anew_once() {
    assert_eq!(
        walk(
            true,
            &[
                StepResult::Failed,
                StepResult::Done,
                StepResult::Resolved(9),
                StepResult::Done,
                StepResult::Done,
            ]
        ),
        vec![
            ConnectStep::ResolveGroup,
            ConnectStep::CreateResolver,
            ConnectStep::ResolveGroup,
            ConnectStep::OpenSocket,
            ConnectStep::JoinGroup(9),
            ConnectStep::Finished { connected: true },
        ]
    );
    assert_eq!(
        walk(
            true,
            &[StepResult::Failed, StepResult::Done, StepResult::Failed]
        )
        .last(),
        Some(&ConnectStep::Finished { connected: false })
    );
}

#[test]
fn without_a_resolver_a_router_takes_its_place() {
    assert_eq!(
        walk(
            false,
            &[
                StepResult::Failed,
                StepResult::Done,
                StepResult::Resolved(3),
                StepResult::Done,
                StepResult::Done,
            ]
        ),
        vec![
            ConnectStep::CreateResolver,
            ConnectStep::OpenRouter,
            ConnectStep::ResolveWithRouter,
            ConnectStep::OpenSocket,
            ConnectStep::JoinGroup(3),
            ConnectStep::Finished { connected: true },
        ]
    );
    assert_eq!(
        walk(false, &[StepResult::Failed, StepResult::Failed]).last(),
        Some(&ConnectStep::Finished { connected: false })
    );
    assert_eq!(
        walk(
            false,
            &[StepResult::Failed, StepResult::Done, StepResult::Failed]
        )
        .last(),
        Some(&ConnectStep::Finished { connected: false })
    );
}

#[test]
fn a_failed_socket_or_join_ends_the_attempt() {
    assert_eq!(
        walk(false, &[StepResult::Done, StepResult::Resolved(1), StepResult::Failed]).last(),
        Some(&ConnectStep::Finished { connected: false })
    );
    assert_eq!(
        walk(
            false,
            &[
                StepResult::Done,
                StepResult::Resolved(1),
                StepResult::Done,
                StepResult::Failed
            ]
        )
        .last(),
        Some(&ConnectStep::Finished { connected: false })
    );
    let mut plan = ConnectPlan::start(true);
    assert_eq!(plan.outcome(), None);
    let _ = plan.advance(StepResult::Resolved(5));
    let _ = plan.advance(StepResult::Done);
    assert_eq!(plan.outcome(), None);
    let _ = plan.advance(StepResult::Done);
    assert_eq!(plan.outcome(), Some(true));
    assert_eq!(
        plan.advance(StepResult::Failed),
        ConnectStep::Finished { connected: true }
    );
}

#[test]
fn results_of_the_wrong_kind_count_as_failure() {
    assert_eq!(
        walk(true, &[StepResult::Done]),
        vec![ConnectStep::ResolveGroup, ConnectStep::CreateResolver]
    );
    assert_eq!(
        walk(false, &[StepResult::Resolved(1)]),
        vec![ConnectStep::CreateResolver, ConnectStep::OpenRouter]
    );
    assert_eq!(
        walk(true, &[StepResult::Resolved(1), StepResult::Resolved(2)]).last(),
        Some(&ConnectStep::Finished { connected: false })
    );
}

#[test]
fn an_attempt_is_over_after_six_steps() {
    let results = [StepResult::Done, StepResult::Resolved(1), StepResult::Failed];
    let mut sequences: Vec<Vec<StepResult>> = vec![vec![]];
    for _ in 0..6 {
        let mut longer = Vec::new();
        for s in &sequences {
            for r in results {
                let mut t = s.clone();
                t.push(r);
                longer.push(t);
            }
        }
        sequences = longer;
    }
    for has_resolver in [true, false] {
        for s in &sequences {
            let mut plan = ConnectPlan::start(has_resolver);
            for r in s {
                let _ = plan.advance(*r);
            }
            assert!(plan.outcome().is_some());
        }
    }
}
