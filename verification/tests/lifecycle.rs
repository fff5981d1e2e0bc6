use wg_iface::link::{
    add_address_request, create_link_request, find_link_request, set_up_request,
};
use wg_iface::{
    Action, Channel, ChannelState, Command, Event, Goal, IpAddress, Keygen, KeygenStep, LinkState,
    Phase, Session, Step, Wg, WgError,
};

fn numbered(seq: u32) -> Channel {
    Channel { seq: seq - 1, state: ChannelState::Idle }
}

fn encode_create_link(name: &[u8], seq: u32) -> Vec<u8> {
    create_link_request(name, &mut numbered(seq))
}

fn encode_find_link(name: &[u8], seq: u32) -> Vec<u8> {
    find_link_request(name, &mut numbered(seq))
}

fn encode_add_address(index: u32, ip: &IpAddress, prefix: u8, seq: u32) -> Vec<u8> {
    add_address_request(index, ip, prefix, &mut numbered(seq))
}

fn encode_set_up(index: u32, seq: u32) -> Vec<u8> {
    set_up_request(index, &mut numbered(seq))
}

fn message(kind: u16, seq: u32, payload: &[u8]) -> Vec<u8> {
    let len = (16 + payload.len()) as u32;
    let mut out = Vec::new();
    out.extend_from_slice(&len.to_le_bytes());
    out.extend_from_slice(&kind.to_le_bytes());
    out.extend_from_slice(&0u16.to_le_bytes());
    out.extend_from_slice(&seq.to_le_bytes());
    out.extend_from_slice(&1000u32.to_le_bytes());
    out.extend_from_slice(payload);
    out
}

fn ack(seq: u32) -> Event {
    nack(seq, 0)
}

fn nack(seq: u32, code: i32) -> Event {
    let mut payload = Vec::new();
    payload.extend_from_slice(&code.to_le_bytes());
    payload.extend_from_slice(&[0u8; 16]);
    Event::Datagram(message(2, seq, &payload))
}

fn link(seq: u32, index: u32) -> Event {
    let mut payload = vec![0u8, 0, 0xFE, 0xFF];
    payload.extend_from_slice(&index.to_le_bytes());
    payload.extend_from_slice(&[0u8; 8]);
    Event::Datagram(message(16, seq, &payload))
}

fn exited(success: bool, code: i32) -> Event {
    Event::Exited { success, exit: Some(code) }
}

fn going(step: Step) -> (Session, Action) {
    match step {
        Step::Next(session, action) => (session, action),
        other => panic!("the operation ended: {:?}", other),
    }
}

fn owned_args(items: &[&str]) -> Vec<String> {
    items.iter().map(|s| s.to_string()).collect()
}

#[test]
fn new_keeps_the_name() {
    assert_eq!(Wg::new("wg0").iface, "wg0");
    assert_eq!(Wg::new("").iface, "");
}

#[test]
fn name_fits_up_to_the_limit_of_an_attribute() {
    assert!(Wg::new("wg0").fits());
    assert!(Wg::new(&"x".repeat(65530)).fits());
    assert!(!Wg::new(&"x".repeat(65531)).fits());
    assert!(!Wg::new(&"\u{e9}".repeat(32766)).fits());
    assert!(Wg::new(&"\u{e9}".repeat(32765)).fits());
}

#[test]
fn longest_name_is_encoded_with_its_full_length() {
    let name = "n".repeat(65530);
    let request = encode_find_link(name.as_bytes(), 1);
    assert_eq!(request.len(), 16 + 16 + 65536);
    assert_eq!(&request[32..36], &[0xFF, 0xFF, 3, 0]);
    assert_eq!(request[36 + 65530], 0);
}

#[test]
fn up_issues_three_transactions_then_route_then_config() {
    let wg = Wg::new("wg0");
    let address = IpAddress::V4([10, 13, 37, 2]);

    let (session, action) = going(wg.up("AAAA...", "10.13.37.2/24"));
    assert_eq!(action, Action::Open(encode_create_link(b"wg0", 1)));
    assert_eq!(session.state(), LinkState::Absent);
    assert_eq!(session.phase(), Phase::Creating);
    assert_eq!(session.goal(), Goal::Up);

    let (session, action) = going(session.resume(&ack(1)));
    assert_eq!(action, Action::Open(encode_find_link(b"wg0", 1)));
    assert_eq!(session.state(), LinkState::Created);

    let (session, action) = going(session.resume(&link(1, 5)));
    assert_eq!(action, Action::Send(encode_add_address(5, &address, 24, 2)));
    assert_eq!(session.phase(), Phase::Addressing);

    let (session, action) = going(session.resume(&ack(2)));
    assert_eq!(action, Action::Open(encode_find_link(b"wg0", 1)));
    assert_eq!(session.state(), LinkState::Addressed);

    let (session, action) = going(session.resume(&link(1, 5)));
    assert_eq!(action, Action::Send(encode_set_up(5, 2)));

    let (session, action) = going(session.resume(&ack(2)));
    assert_eq!(session.state(), LinkState::Up);
    assert_eq!(
        action,
        Action::Run(Command {
            program: "ip".to_string(),
            args: owned_args(&["route", "add", "10.13.37.0/24", "dev", "wg0"]),
            input: None,
        })
    );

    let (session, action) = going(session.resume(&exited(true, 0)));
    assert_eq!(session.state(), LinkState::Up);
    assert_eq!(
        action,
        Action::Run(Command {
            program: "wg".to_string(),
            args: owned_args(&["addconf", "wg0", "/dev/stdin"]),
            input: Some("[Interface]\nPrivateKey = AAAA...\nListenPort = 1337".to_string()),
        })
    );

    match session.resume(&exited(true, 0)) {
        Step::Done(state) => assert_eq!(state, LinkState::ConfiguredUp),
        other => panic!("not done: {:?}", other),
    }
}

fn run_up(wg: &Wg, route_ok: bool) -> Step {
    let (session, _) = going(wg.up("k", "10.13.37.2/24"));
    let (session, _) = going(session.resume(&ack(1)));
    let (session, _) = going(session.resume(&link(1, 3)));
    let (session, _) = going(session.resume(&ack(2)));
    let (session, _) = going(session.resume(&link(1, 3)));
    let (session, _) = going(session.resume(&ack(2)));
    let (session, _) = going(session.resume(&exited(route_ok, if route_ok { 0 } else { 2 })));
    session.resume(&exited(true, 0))
}

#[test]
fn up_then_down_leaves_the_interface_absent() {
    let wg = Wg::new("wg0");
    assert!(matches!(run_up(&wg, true), Step::Done(LinkState::ConfiguredUp)));
    let (session, action) = going(wg.down());
    assert_eq!(action, Action::Run(Command::link_del("wg0")));
    assert!(matches!(session.resume(&exited(true, 0)), Step::Done(LinkState::Absent)));
}

#[test]
fn route_failure_does_not_abort_up() {
    let wg = Wg::new("wg0");
    assert!(matches!(run_up(&wg, false), Step::Done(LinkState::ConfiguredUp)));
}

#[test]
fn second_create_yields_link_exists() {
    let wg = Wg::new("wg0");
    let (session, _) = going(wg.add_link());
    assert!(matches!(session.resume(&ack(1)), Step::Done(LinkState::Created)));
    let (session, action) = going(wg.add_link());
    assert_eq!(action, Action::Open(encode_create_link(b"wg0", 1)));
    match session.resume(&nack(1, -17)) {
        Step::Failed { state, error } => {
            assert_eq!(state, LinkState::Absent);
            assert_eq!(error, WgError::LinkExists);
        },
        other => panic!("not failed: {:?}", other),
    }
}

#[test]
fn create_without_privilege_is_permission_denied() {
    let wg = Wg::new("wg0");
    let (session, _) = going(wg.add_link());
    assert!(matches!(
        session.resume(&nack(1, -1)),
        Step::Failed { state: LinkState::Absent, error: WgError::PermissionDenied }
    ));
    let (session, _) = going(wg.add_link());
    assert!(matches!(
        session.resume(&nack(1, -13)),
        Step::Failed { state: LinkState::Absent, error: WgError::PermissionDenied }
    ));
}

#[test]
fn other_kernel_errors_keep_their_code() {
    let wg = Wg::new("wg0");
    let (session, _) = going(wg.add_link());
    assert!(matches!(
        session.resume(&nack(1, -95)),
        Step::Failed { state: LinkState::Absent, error: WgError::KernelRejected { code: -95 } }
    ));
    let (session, _) = going(wg.add_link());
    assert!(matches!(
        session.resume(&nack(1, -19)),
        Step::Failed { error: WgError::KernelRejected { code: -19 }, .. }
    ));
    let (session, _) = going(wg.add_address("10.0.0.1/8"));
    let (session, _) = going(session.resume(&link(1, 2)));
    assert!(matches!(
        session.resume(&nack(2, -17)),
        Step::Failed { state: LinkState::Created, error: WgError::KernelRejected { code: -17 } }
    ));
}

#[test]
fn add_address_on_a_missing_link_is_link_not_found() {
    let wg = Wg::new("nope0");
    let (session, action) = going(wg.add_address("10.13.37.2/24"));
    assert_eq!(action, Action::Open(encode_find_link(b"nope0", 1)));
    assert!(matches!(
        session.resume(&nack(1, -19)),
        Step::Failed { error: WgError::LinkNotFound, .. }
    ));
    let (session, _) = going(wg.add_address("10.13.37.2/24"));
    assert!(matches!(
        session.resume(&ack(1)),
        Step::Failed { error: WgError::LinkNotFound, .. }
    ));
}

#[test]
fn link_up_on_a_missing_link_is_link_not_found() {
    let wg = Wg::new("nope0");
    let (session, action) = going(wg.link_up());
    assert_eq!(action, Action::Open(encode_find_link(b"nope0", 1)));
    assert!(matches!(
        session.resume(&nack(1, -19)),
        Step::Failed { error: WgError::LinkNotFound, .. }
    ));
    let (session, _) = going(wg.link_up());
    assert!(matches!(
        session.resume(&ack(1)),
        Step::Failed { error: WgError::LinkNotFound, .. }
    ));
}

#[test]
fn rejection_after_the_lookup_keeps_its_code() {
    let wg = Wg::new("wg0");
    for code in [-1, -13, -17, -19, -22, -34, 5, i32::MIN, i32::MAX] {
        let (session, _) = going(wg.add_address("10.13.37.2/24"));
        let (session, _) = going(session.resume(&link(1, 4)));
        match session.resume(&nack(2, code)) {
            Step::Failed { state, error } => {
                assert_eq!(state, LinkState::Created);
                assert_eq!(error, WgError::KernelRejected { code });
            },
            other => panic!("not failed: {:?}", other),
        }
        let (session, _) = going(wg.link_up());
        let (session, _) = going(session.resume(&link(1, 8)));
        match session.resume(&nack(2, code)) {
            Step::Failed { state, error } => {
                assert_eq!(state, LinkState::Addressed);
                assert_eq!(error, WgError::KernelRejected { code });
            },
            other => panic!("not failed: {:?}", other),
        }
    }
}

#[test]
fn privilege_rejection_of_the_address_in_up_keeps_its_code() {
    let wg = Wg::new("wg0");
    let (session, _) = going(wg.up("k", "10.13.37.2/24"));
    let (session, _) = going(session.resume(&ack(1)));
    let (session, _) = going(session.resume(&link(1, 3)));
    assert!(matches!(
        session.resume(&nack(2, -1)),
        Step::Failed { state: LinkState::Created, error: WgError::KernelRejected { code: -1 } }
    ));
    let (session, _) = going(wg.up("k", "10.13.37.2/24"));
    let (session, _) = going(session.resume(&ack(1)));
    let (session, _) = going(session.resume(&link(1, 3)));
    let (session, _) = going(session.resume(&ack(2)));
    let (session, _) = going(session.resume(&link(1, 3)));
    assert!(matches!(
        session.resume(&nack(2, -13)),
        Step::Failed { state: LinkState::Addressed, error: WgError::KernelRejected { code: -13 } }
    ));
}

#[test]
fn rejection_of_the_lookup_keeps_every_code_but_no_such_device() {
    let wg = Wg::new("wg0");
    for code in [-1, -13, -17, -22] {
        let (session, _) = going(wg.link_up());
        assert!(matches!(
            session.resume(&nack(1, code)),
            Step::Failed { state: LinkState::Addressed, error: WgError::KernelRejected { code: c } }
                if c == code
        ));
        let (session, _) = going(wg.add_address("10.0.0.1/8"));
        assert!(matches!(
            session.resume(&nack(1, code)),
            Step::Failed { state: LinkState::Created, error: WgError::KernelRejected { code: c } }
                if c == code
        ));
    }
}

#[test]
fn address_with_a_prefix_longer_than_itself_is_never_sent() {
    let too_long = wg_iface::Cidr { ip: IpAddress::V4([10, 0, 0, 1]), prefix: 33 };
    assert!(matches!(
        Session::begin(Goal::AddAddress, "wg0", Some(too_long), ""),
        Step::Failed { state: LinkState::Created, error: WgError::InvalidAddress }
    ));
    let (session, _) = going(Session::begin(Goal::Up, "wg0", Some(too_long), "c"));
    assert!(matches!(
        session.resume(&ack(1)),
        Step::Failed { state: LinkState::Created, error: WgError::InvalidAddress }
    ));
    let v6 = wg_iface::Cidr { ip: IpAddress::V6([0; 16]), prefix: 129 };
    assert!(matches!(
        Session::begin(Goal::AddAddress, "wg0", Some(v6), ""),
        Step::Failed { error: WgError::InvalidAddress, .. }
    ));
    let widest = wg_iface::Cidr { ip: IpAddress::V4([10, 0, 0, 1]), prefix: 32 };
    let (session, _) = going(Session::begin(Goal::AddAddress, "wg0", Some(widest), ""));
    let (_, action) = going(session.resume(&link(1, 6)));
    assert_eq!(action, Action::Send(encode_add_address(6, &widest.ip, 32, 2)));
    assert!(matches!(
        Session::begin(Goal::AddAddress, "wg0", None, ""),
        Step::Failed { error: WgError::InvalidAddress, .. }
    ));
}

#[test]
fn add_address_alone_looks_up_then_assigns() {
    let wg = Wg::new("wg0");
    let (session, _) = going(wg.add_address("192.168.1.1/16"));
    let (session, action) = going(session.resume(&link(1, 258)));
    assert_eq!(
        action,
        Action::Send(encode_add_address(258, &IpAddress::V4([192, 168, 1, 1]), 16, 2))
    );
    assert!(matches!(session.resume(&ack(2)), Step::Done(LinkState::Addressed)));
}

#[test]
fn link_up_alone_looks_up_then_raises() {
    let wg = Wg::new("wg0");
    let (session, _) = going(wg.link_up());
    let (session, action) = going(session.resume(&link(1, 9)));
    assert_eq!(action, Action::Send(encode_set_up(9, 2)));
    assert!(matches!(session.resume(&ack(2)), Step::Done(LinkState::Up)));
}

#[test]
fn invalid_address_fails_add_address_at_once() {
    let wg = Wg::new("wg0");
    assert!(matches!(
        wg.add_address("10.13.37.2"),
        Step::Failed { state: LinkState::Created, error: WgError::InvalidAddress }
    ));
}

#[test]
fn invalid_address_fails_up_after_the_link_is_created() {
    let wg = Wg::new("wg0");
    let (session, action) = going(wg.up("k", "10.13.37.2/99"));
    assert_eq!(action, Action::Open(encode_create_link(b"wg0", 1)));
    assert!(matches!(
        session.resume(&ack(1)),
        Step::Failed { state: LinkState::Created, error: WgError::InvalidAddress }
    ));
}

#[test]
fn failure_in_the_middle_of_up_is_not_rolled_back() {
    let wg = Wg::new("wg0");
    let (session, _) = going(wg.up("k", "10.13.37.2/24"));
    let (session, _) = going(session.resume(&ack(1)));
    let (session, _) = going(session.resume(&link(1, 3)));
    assert!(matches!(
        session.resume(&nack(2, -22)),
        Step::Failed { state: LinkState::Created, error: WgError::KernelRejected { code: -22 } }
    ));

    let (session, _) = going(wg.up("k", "10.13.37.2/24"));
    let (session, _) = going(session.resume(&ack(1)));
    let (session, _) = going(session.resume(&link(1, 3)));
    let (session, _) = going(session.resume(&ack(2)));
    let (session, _) = going(session.resume(&link(1, 3)));
    let (session, _) = going(session.resume(&ack(2)));
    let (session, _) = going(session.resume(&exited(true, 0)));
    match session.resume(&exited(false, 1)) {
        Step::Failed { state, error } => {
            assert_eq!(state, LinkState::Up);
            assert_eq!(
                error,
                WgError::CommandFailed {
                    program: "wg".to_string(),
                    args: owned_args(&["addconf", "wg0", "/dev/stdin"]),
                    exit: Some(1),
                }
            );
        },
        other => panic!("not failed: {:?}", other),
    }
}

#[test]
fn unmatched_response_does_not_end_the_wait() {
    let wg = Wg::new("wg0");
    let (session, _) = going(wg.add_link());
    let (session, action) = going(session.resume(&ack(2)));
    assert_eq!(action, Action::Receive);
    assert_eq!(session.phase(), Phase::Creating);
    let (session, action) = going(session.resume(&nack(0, -17)));
    assert_eq!(action, Action::Receive);
    let (session, action) = going(session.resume(&Event::Datagram(Vec::new())));
    assert_eq!(action, Action::Receive);
    assert!(matches!(session.resume(&ack(1)), Step::Done(LinkState::Created)));
}

#[test]
fn timeout_ends_the_wait_as_malformed_response() {
    let wg = Wg::new("wg0");
    let (session, _) = going(wg.add_link());
    let (session, _) = going(session.resume(&ack(7)));
    assert!(matches!(
        session.resume(&Event::Timeout),
        Step::Failed { state: LinkState::Absent, error: WgError::MalformedResponse }
    ));
}

#[test]
fn answer_to_the_lookup_does_not_answer_the_request_after_it() {
    let wg = Wg::new("wg0");
    let (session, _) = going(wg.link_up());
    let (session, _) = going(session.resume(&link(1, 9)));
    let (session, action) = going(session.resume(&ack(1)));
    assert_eq!(action, Action::Receive);
    assert_eq!(session.phase(), Phase::Raising);
    assert!(matches!(session.resume(&ack(2)), Step::Done(LinkState::Up)));
}

#[test]
fn malformed_datagram_fails_the_exchange() {
    let wg = Wg::new("wg0");
    let (session, _) = going(wg.add_link());
    assert!(matches!(
        session.resume(&Event::Datagram(vec![1, 2, 3])),
        Step::Failed { error: WgError::MalformedResponse, .. }
    ));
}

#[test]
fn events_of_the_other_kind_are_dropped() {
    let wg = Wg::new("wg0");
    let (session, _) = going(wg.add_link());
    let (session, action) = going(session.resume(&exited(true, 0)));
    assert_eq!(action, Action::Wait);
    assert_eq!(session.phase(), Phase::Creating);
    assert!(matches!(session.resume(&ack(1)), Step::Done(LinkState::Created)));

    let (session, _) = going(wg.down());
    let (session, action) = going(session.resume(&ack(1)));
    assert_eq!(action, Action::Wait);
    let (session, action) = going(session.resume(&Event::Timeout));
    assert_eq!(action, Action::Wait);
    assert_eq!(session.phase(), Phase::Removing);
    assert!(matches!(session.resume(&exited(true, 0)), Step::Done(LinkState::Absent)));
}

#[test]
fn down_on_an_absent_interface_propagates_the_failure() {
    let wg = Wg::new("wg0");
    let (session, _) = going(wg.down());
    match session.resume(&exited(false, 1)) {
        Step::Failed { state, error } => {
            assert_eq!(state, LinkState::ConfiguredUp);
            assert_eq!(
                error,
                WgError::CommandFailed {
                    program: "ip".to_string(),
                    args: owned_args(&["link", "del", "dev", "wg0"]),
                    exit: Some(1),
                }
            );
        },
        other => panic!("not failed: {:?}", other),
    }
}

#[test]
fn add_config_pushes_the_text() {
    let wg = Wg::new("wg0");
    let (session, action) = going(wg.add_config("[Peer]\nPublicKey = B\n"));
    assert_eq!(action, Action::Run(Command::addconf("wg0", "[Peer]\nPublicKey = B\n")));
    assert_eq!(session.goal(), Goal::AddConfig);
    assert!(matches!(session.resume(&exited(true, 0)), Step::Done(LinkState::ConfiguredUp)));
    let (session, _) = going(wg.add_config("x"));
    assert!(matches!(
        session.resume(&Event::Exited { success: false, exit: None }),
        Step::Failed { state: LinkState::Up, error: WgError::CommandFailed { exit: None, .. } }
    ));
}

#[test]
fn session_begin_is_what_the_handle_starts() {
    let (session, action) = going(Session::begin(Goal::LinkUp, "wg0", None, ""));
    assert_eq!(action, Action::Open(encode_find_link(b"wg0", 1)));
    assert_eq!(session.state(), LinkState::Addressed);
    assert_eq!(session.goal(), Goal::LinkUp);
}

#[test]
fn keypair_is_generated_in_two_runs() {
    let (keygen, command) = match Wg::generate_keypair() {
        KeygenStep::Next(keygen, command) => (keygen, command),
        other => panic!("unexpected: {:?}", other),
    };
    assert_eq!(command, Command::genkey());
    assert_eq!(keygen.privkey, None);
    let (keygen, command) = match keygen.resume(true, Some(0), b"cHJpdmF0ZQ==\n") {
        KeygenStep::Next(keygen, command) => (keygen, command),
        other => panic!("unexpected: {:?}", other),
    };
    assert_eq!(command, Command::pubkey("cHJpdmF0ZQ=="));
    assert_eq!(command.input, Some("cHJpdmF0ZQ==".to_string()));
    match keygen.resume(true, Some(0), b"cHVibGlj\n") {
        KeygenStep::Done(pair) => {
            assert_eq!(pair.privkey, "cHJpdmF0ZQ==");
            assert_eq!(pair.pubkey, "cHVibGlj");
            assert_ne!(pair.privkey, pair.pubkey);
            assert!(!pair.privkey.is_empty() && !pair.pubkey.is_empty());
        },
        other => panic!("unexpected: {:?}", other),
    }
}

#[test]
fn same_private_key_is_fed_to_every_derivation() {
    let first = Keygen { privkey: None }.resume(true, Some(0), b"same=\n");
    let second = Keygen { privkey: None }.resume(true, Some(0), b"same=\n");
    match (first, second) {
        (KeygenStep::Next(_, a), KeygenStep::Next(_, b)) => {
            assert_eq!(a, b);
            assert_eq!(a.input, Some("same=".to_string()));
        },
        other => panic!("unexpected: {:?}", other),
    }
}

#[test]
fn failed_key_tool_fails_the_generation() {
    match (Keygen { privkey: None }).resume(false, Some(1), b"ignored") {
        KeygenStep::Failed(error) => assert_eq!(
            error,
            WgError::CommandFailed {
                program: "wg".to_string(),
                args: owned_args(&["genkey"]),
                exit: Some(1),
            }
        ),
        other => panic!("unexpected: {:?}", other),
    }
    match (Keygen { privkey: Some("p".to_string()) }).resume(false, None, b"") {
        KeygenStep::Failed(error) => assert_eq!(
            error,
            WgError::CommandFailed {
                program: "wg".to_string(),
                args: owned_args(&["pubkey"]),
                exit: None,
            }
        ),
        other => panic!("unexpected: {:?}", other),
    }
}
