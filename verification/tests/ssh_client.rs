use massh::{
    carry_out, confirm_authenticated, CommandOutput, ConnectStep, Endpoint, Failure, FailureKind,
    HostAddr, Request, SshAuth, SshClient, Step,
};

fn ssh_endpoint(addr: &str, port: u16) -> Endpoint {
    Endpoint { addr: HostAddr::new(addr).unwrap(), port }
}

fn localhost() -> SshClient<u32> {
    SshClient::from("username", ssh_endpoint("127.0.0.1", 22))
}

fn plan_without_timeout(user: &str, auth: SshAuth) -> Vec<ConnectStep> {
    vec![
        ConnectStep::OpenSession,
        ConnectStep::Dial { addr: ssh_endpoint("127.0.0.1", 22), timeout_ms: None },
        ConnectStep::Handshake,
        ConnectStep::Authenticate { user: user.to_string(), auth },
        ConnectStep::ConfirmAuthenticated,
    ]
}

#[test]
fn new_client_uses_agent_and_has_no_timeout_and_no_session() {
    let ssh = localhost();
    assert_eq!(ssh.get_user(), "username");
    assert_eq!(ssh.get_addr(), &ssh_endpoint("127.0.0.1", 22));
    assert_eq!(ssh.get_auth(), &SshAuth::Agent);
    assert_eq!(ssh.get_timeout(), 0);
    assert!(!ssh.is_connected());
    assert_eq!(ssh.session(), None);
}

#[test]
fn setters_change_one_thing_and_chain() {
    let mut ssh = localhost();
    ssh.set_auth_password("top-secret").set_timeout(5000);
    assert_eq!(ssh.get_auth(), &SshAuth::Password("top-secret".to_string()));
    assert_eq!(ssh.get_timeout(), 5000);
    assert_eq!(ssh.get_user(), "username");
    ssh.set_auth_pubkey("/home/username/.ssh/id_rsa");
    assert_eq!(ssh.get_auth(), &SshAuth::Pubkey("/home/username/.ssh/id_rsa".to_string()));
    assert_eq!(ssh.get_timeout(), 5000);
    ssh.set_auth_agent();
    assert_eq!(ssh.get_auth(), &SshAuth::Agent);
    assert_eq!(ssh.get_addr(), &ssh_endpoint("127.0.0.1", 22));
}

#[test]
fn try_from_takes_the_first_endpoint() {
    let found = vec![ssh_endpoint("127.0.0.1", 22), ssh_endpoint("::1", 22)];
    let ssh: SshClient<u32> = SshClient::try_from("username", Ok(found)).unwrap();
    assert_eq!(ssh.get_addr(), &ssh_endpoint("127.0.0.1", 22));
    assert_eq!(ssh.get_user(), "username");
    assert_eq!(ssh.get_auth(), &SshAuth::Agent);
    assert_eq!(ssh.get_timeout(), 0);
    assert!(!ssh.is_connected());
}

#[test]
fn try_from_fails_when_nothing_was_found() {
    let result: Result<SshClient<u32>, Failure> = SshClient::try_from("username", Ok(vec![]));
    match result {
        Err(failure) => {
            assert_eq!(failure.kind, FailureKind::AddressResolution);
            assert_eq!(failure.message, "Socket address conversion failed");
        }
        Ok(_) => panic!("a client was made of nothing"),
    }
}

#[test]
fn try_from_hands_a_failed_lookup_back() {
    let lookup = Failure::new(FailureKind::AddressResolution, "no such host");
    let result: Result<SshClient<u32>, Failure> = SshClient::try_from("username", Err(lookup));
    match result {
        Err(failure) => {
            assert_eq!(failure, Failure::new(FailureKind::AddressResolution, "no such host"))
        }
        Ok(_) => panic!("a client was made of a failure"),
    }
}

#[test]
fn plan_without_timeout_bounds_nothing() {
    let ssh = localhost();
    assert_eq!(ssh.connect_plan(), plan_without_timeout("username", SshAuth::Agent));
}

#[test]
fn plan_with_timeout_bounds_session_and_dial() {
    let mut ssh = localhost();
    ssh.set_auth_password("pw").set_timeout(5000);
    assert_eq!(
        ssh.connect_plan(),
        vec![
            ConnectStep::OpenSession,
            ConnectStep::LimitSession(5000),
            ConnectStep::Dial { addr: ssh_endpoint("127.0.0.1", 22), timeout_ms: Some(5000) },
            ConnectStep::Handshake,
            ConnectStep::Authenticate {
                user: "username".to_string(),
                auth: SshAuth::Password("pw".to_string()),
            },
            ConnectStep::ConfirmAuthenticated,
        ]
    );
}

#[test]
fn plan_applies_a_timeout_that_a_session_can_take_as_configured() {
    let mut ssh = localhost();
    for timeout in [1, 7, 5000, u32::MAX as u64 - 1, u32::MAX as u64] {
        ssh.set_timeout(timeout);
        let plan = ssh.connect_plan();
        assert_eq!(plan[1], ConnectStep::LimitSession(timeout as u32));
        assert_eq!(
            plan[2],
            ConnectStep::Dial { addr: ssh_endpoint("127.0.0.1", 22), timeout_ms: Some(timeout) }
        );
    }
}

#[test]
fn plan_never_wraps_a_greater_timeout() {
    let mut ssh = localhost();
    for timeout in [0x1_0000_0000, 0x1_0000_0000 + 1, 0x1_0000_0000 + 7, u64::MAX] {
        ssh.set_timeout(timeout);
        let plan = ssh.connect_plan();
        assert_eq!(plan.len(), 6);
        assert_eq!(plan[1], ConnectStep::LimitSession(u32::MAX));
        assert_eq!(
            plan[2],
            ConnectStep::Dial { addr: ssh_endpoint("127.0.0.1", 22), timeout_ms: Some(timeout) }
        );
    }
}

#[test]
fn plan_authenticates_with_the_chosen_method() {
    let mut ssh = localhost();
    ssh.set_auth_pubkey("/k");
    assert_eq!(
        ssh.connect_plan(),
        plan_without_timeout("username", SshAuth::Pubkey("/k".to_string()))
    );
}

#[test]
fn failure_kind_of_each_connect_step() {
    let plan = {
        let mut ssh = localhost();
        ssh.set_timeout(1);
        ssh.connect_plan()
    };
    let kinds: Vec<FailureKind> = plan.iter().map(|step| step.failure_kind()).collect();
    assert_eq!(
        kinds,
        vec![
            FailureKind::Transport,
            FailureKind::Transport,
            FailureKind::Transport,
            FailureKind::Transport,
            FailureKind::Authentication,
            FailureKind::Authentication,
        ]
    );
}

fn run_of(command: &str) -> Request {
    Request::Execute { command: command.to_string() }
}

fn echo(session: &u32, command: &str) -> Result<CommandOutput, Failure> {
    Ok(CommandOutput {
        exit_status: *session as i32,
        stderr: vec![],
        stdout: command.as_bytes().to_vec(),
    })
}

fn refused() -> Failure {
    Failure::new(FailureKind::Authentication, "Authentication failed")
}

#[test]
fn first_request_asks_to_connect() {
    let ssh = localhost();
    assert_eq!(
        ssh.request(run_of("echo $PATH")),
        Step::Connect(plan_without_timeout("username", SshAuth::Agent))
    );
    assert_eq!(
        ssh.request(Request::Download {
            remote_path: "remote.txt".to_string(),
            local_path: "local.txt".to_string(),
        }),
        Step::Connect(plan_without_timeout("username", SshAuth::Agent))
    );
}

#[test]
fn request_of_a_connected_client_is_to_be_performed() {
    let mut ssh = localhost();
    assert_eq!(ssh.establish(Ok(7)), Ok(()));
    assert!(ssh.is_connected());
    assert_eq!(ssh.session(), Some(&7));
    assert_eq!(ssh.request(run_of("echo $PATH")), Step::Perform(run_of("echo $PATH")));
    let upload = Request::Upload {
        local_path: "local.txt".to_string(),
        remote_path: "remote.txt".to_string(),
    };
    assert_eq!(ssh.request(upload.clone()), Step::Perform(upload));
}

#[test]
fn execute_connects_first_and_then_runs_the_command() {
    let mut ssh = localhost();
    let mut plans = Vec::new();
    let output = ssh
        .execute(
            "echo $PATH",
            |plan| {
                plans.push(plan);
                Ok(3)
            },
            echo,
        )
        .unwrap();
    assert_eq!(plans, vec![plan_without_timeout("username", SshAuth::Agent)]);
    assert_eq!(output.exit_status, 3);
    assert_eq!(output.stdout, b"echo $PATH");
    assert_eq!(ssh.session(), Some(&3));
}

#[test]
fn session_is_reused_by_sequential_operations() {
    let mut ssh = localhost();
    let mut connects = 0;
    for command in ["first", "second"] {
        let output = ssh
            .execute(
                command,
                |_| {
                    connects += 1;
                    Ok(40 + connects)
                },
                echo,
            )
            .unwrap();
        assert_eq!(output.exit_status, 41);
        assert_eq!(output.stdout, command.as_bytes());
    }
    assert_eq!(connects, 1);
    assert_eq!(ssh.session(), Some(&41));
}

#[test]
fn failed_operation_keeps_the_session() {
    let mut ssh = localhost();
    ssh.establish(Ok(1)).unwrap();
    let broken = Failure::new(FailureKind::Protocol, "channel closed");
    let outcome = ssh.execute("ls", |_| Ok(2), |_, _| Err(broken.clone()));
    assert_eq!(outcome, Err(broken));
    assert_eq!(ssh.session(), Some(&1));
}

#[test]
fn operation_is_not_performed_when_connecting_fails() {
    let mut ssh = localhost();
    let mut performed = false;
    let outcome = ssh.scp_upload(
        "local.txt",
        "remote.txt",
        |_| Err(refused()),
        |_, _, _| {
            performed = true;
            Ok(())
        },
    );
    assert_eq!(outcome, Err(refused()));
    assert!(!performed);
    assert!(!ssh.is_connected());
}

#[test]
fn transfers_hand_source_and_destination_to_the_copy() {
    let mut ssh = localhost();
    let mut seen = Vec::new();
    ssh.scp_download(
        "remote.txt",
        "local.txt",
        |_| Ok(1),
        |session: &u32, from: &str, to: &str| {
            seen.push((*session, from.to_string(), to.to_string()));
            Ok(())
        },
    )
    .unwrap();
    ssh.scp_upload(
        "local.txt",
        "remote-copy.txt",
        |_| Ok(2),
        |session: &u32, from: &str, to: &str| {
            seen.push((*session, from.to_string(), to.to_string()));
            Ok(())
        },
    )
    .unwrap();
    assert_eq!(
        seen,
        vec![
            (1, "remote.txt".to_string(), "local.txt".to_string()),
            (1, "local.txt".to_string(), "remote-copy.txt".to_string()),
        ]
    );
}

#[test]
fn run_hands_the_request_to_perform() {
    let mut ssh = localhost();
    let outcome = ssh.run(run_of("id"), |_| Ok(5), |session: &u32, request| Ok((*session, request)));
    assert_eq!(outcome, Ok((5, run_of("id"))));
    let outcome: Result<u8, Failure> = localhost().run(run_of("id"), |_| Err(refused()), |_, _| Ok(1));
    assert_eq!(outcome, Err(refused()));
}

#[test]
fn connect_caches_the_session_that_was_made() {
    let mut ssh = localhost();
    ssh.set_timeout(5000);
    let mut plans = Vec::new();
    let outcome = ssh.connect(|plan| {
        plans.push(plan);
        Ok(8)
    });
    assert_eq!(outcome, Ok(()));
    assert_eq!(ssh.session(), Some(&8));
    assert_eq!(plans.len(), 1);
    assert_eq!(plans[0], ssh.connect_plan());
    assert_eq!(ssh.connect(|_| Ok(9)), Ok(()));
    assert_eq!(ssh.session(), Some(&9));
}

#[test]
fn operation_after_disconnect_connects_afresh() {
    let mut ssh = localhost();
    ssh.connect(|_| Ok(1)).unwrap();
    ssh.disconnect();
    assert!(!ssh.is_connected());
    assert_eq!(ssh.session(), None);
    assert_eq!(
        ssh.request(run_of("ls")),
        Step::Connect(plan_without_timeout("username", SshAuth::Agent))
    );
    let output = ssh.execute("ls", |_| Ok(2), echo).unwrap();
    assert_eq!(output.exit_status, 2);
    assert_eq!(ssh.session(), Some(&2));
}

#[test]
fn disconnect_without_session_does_nothing() {
    let mut ssh = localhost();
    ssh.set_timeout(9);
    ssh.disconnect().set_auth_password("x");
    assert!(!ssh.is_connected());
    assert_eq!(ssh.get_timeout(), 9);
    assert_eq!(ssh.get_auth(), &SshAuth::Password("x".to_string()));
}

#[test]
fn new_session_replaces_the_cached_one() {
    let mut ssh = localhost();
    ssh.establish(Ok(1)).unwrap();
    ssh.establish(Ok(2)).unwrap();
    assert_eq!(ssh.session(), Some(&2));
}

#[test]
fn failed_connect_leaves_no_session() {
    let mut ssh = localhost();
    assert_eq!(ssh.establish(Err(refused())), Err(refused()));
    assert!(!ssh.is_connected());
    ssh.establish(Ok(1)).unwrap();
    assert_eq!(ssh.connect(|_| Err(refused())), Err(refused()));
    assert!(!ssh.is_connected());
    assert_eq!(ssh.session(), None);
    assert_eq!(ssh.get_user(), "username");
}

#[test]
fn connect_keeps_the_configuration() {
    let mut ssh = localhost();
    ssh.set_auth_password("pw").set_timeout(3);
    ssh.connect(|_| Ok(1)).unwrap();
    assert_eq!(ssh.get_user(), "username");
    assert_eq!(ssh.get_addr(), &ssh_endpoint("127.0.0.1", 22));
    assert_eq!(ssh.get_auth(), &SshAuth::Password("pw".to_string()));
    assert_eq!(ssh.get_timeout(), 3);
}

#[test]
fn session_that_is_authenticated_is_confirmed() {
    assert_eq!(confirm_authenticated(true), Ok(()));
}

#[test]
fn session_that_is_not_authenticated_has_failed() {
    assert_eq!(
        confirm_authenticated(false),
        Err(Failure::new(FailureKind::Authentication, "Authentication failed"))
    );
}

fn step_name(step: &ConnectStep) -> &'static str {
    match step {
        ConnectStep::OpenSession => "open",
        ConnectStep::LimitSession(_) => "limit",
        ConnectStep::Dial { .. } => "dial",
        ConnectStep::Handshake => "handshake",
        ConnectStep::Authenticate { .. } => "authenticate",
        ConnectStep::ConfirmAuthenticated => "confirm",
    }
}

#[test]
fn plan_is_carried_out_step_by_step_in_order() {
    let mut ssh = localhost();
    ssh.set_timeout(5);
    let taken = std::cell::RefCell::new(Vec::new());
    let attempt = carry_out(&ssh.connect_plan(), |step: &ConnectStep, state: Option<u32>| {
        taken.borrow_mut().push((step_name(step), state));
        Ok(Some(state.map_or(1, |session| session + 1)))
    });
    assert_eq!(attempt, Ok(6));
    assert_eq!(
        taken.into_inner(),
        vec![
            ("open", None),
            ("limit", Some(1)),
            ("dial", Some(2)),
            ("handshake", Some(3)),
            ("authenticate", Some(4)),
            ("confirm", Some(5)),
        ]
    );
}

#[test]
fn first_failing_step_ends_the_attempt() {
    let plan = localhost().connect_plan();
    for (failing, kind) in [
        ("open", FailureKind::Transport),
        ("dial", FailureKind::Transport),
        ("handshake", FailureKind::Transport),
        ("authenticate", FailureKind::Authentication),
        ("confirm", FailureKind::Authentication),
    ] {
        let taken = std::cell::RefCell::new(Vec::new());
        let attempt: Result<u32, Failure> = carry_out(&plan, |step: &ConnectStep, _| {
            taken.borrow_mut().push(step_name(step));
            if step_name(step) == failing {
                Err(format!("{} failed", failing))
            } else {
                Ok(Some(1))
            }
        });
        assert_eq!(attempt, Err(Failure::new(kind, &format!("{} failed", failing))));
        let taken = taken.into_inner();
        assert_eq!(taken.last(), Some(&failing));
        assert_eq!(taken.iter().filter(|name| **name == failing).count(), 1);
    }
}

#[test]
fn plan_that_leaves_no_session_has_failed() {
    let plan = localhost().connect_plan();
    let attempt: Result<u32, Failure> = carry_out(&plan, |_: &ConnectStep, _| Ok(None));
    assert_eq!(attempt, Err(Failure::new(FailureKind::Transport, "no session was opened")));
    let attempt: Result<u32, Failure> = carry_out(&vec![], |_: &ConnectStep, _| Ok(Some(1)));
    assert_eq!(attempt, Err(Failure::new(FailureKind::Transport, "no session was opened")));
}

#[test]
fn command_output_clone_keeps_every_field() {
    let output = CommandOutput { exit_status: -3, stderr: vec![1, 2], stdout: vec![3] };
    assert_eq!(output.clone(), output);
}

#[test]
fn clones_are_equal() {
    let auth = SshAuth::Password("pw".to_string());
    assert_eq!(auth.clone(), auth);
    let request = Request::Download { remote_path: "r".to_string(), local_path: "l".to_string() };
    assert_eq!(request.clone(), request);
    let failure = Failure::new(FailureKind::LocalIo, "disk full");
    assert_eq!(failure.clone(), failure);
    assert_eq!(failure.message, "disk full");
    assert_eq!(failure.kind, FailureKind::LocalIo);
}
