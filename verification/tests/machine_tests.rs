use session_attach::connect::{
    attach_error, next_action, start, step, AttachError, FailKind, Phase, PhaseAction, PhaseEvent,
    MAX_POLL_ATTEMPTS, MAX_UPGRADE_ATTEMPTS,
};
use session_attach::executor::ExecutionResult;
use session_attach::handle::{SendError, SessionHandle};
use session_attach::launch::{image_listed, install_commands, u64_string, LaunchConfig};

#[test]
fn poll_gives_up_after_the_configured_attempts() {
    let mut phase = start();
    assert_eq!(next_action(phase), PhaseAction::Poll);
    for i in 1..MAX_POLL_ATTEMPTS {
        phase = step(phase, PhaseEvent::PollFailed);
        assert_eq!(phase, Phase::Polling { failures: i });
        assert_eq!(next_action(phase), PhaseAction::WaitThenPoll);
    }
    phase = step(phase, PhaseEvent::PollFailed);
    assert_eq!(
        phase,
        Phase::Failed {
            kind: FailKind::ServerUnavailable
        }
    );
    assert_eq!(
        next_action(phase),
        PhaseAction::Fail {
            kind: FailKind::ServerUnavailable
        }
    );
    assert!(matches!(
        attach_error(FailKind::ServerUnavailable, String::new()),
        AttachError::ServerUnavailable
    ));
}

#[test]
fn poll_success_on_third_attempt_proceeds_to_handshake() {
    let mut phase = start();
    phase = step(phase, PhaseEvent::PollFailed);
    phase = step(phase, PhaseEvent::PollFailed);
    phase = step(phase, PhaseEvent::PollOk);
    assert_eq!(phase, Phase::Handshaking);
    assert_eq!(next_action(phase), PhaseAction::Handshake);
}

#[test]
fn missing_session_id_is_a_parse_failure() {
    let phase = step(Phase::Handshaking, PhaseEvent::SidMissing);
    assert_eq!(
        phase,
        Phase::Failed {
            kind: FailKind::HandshakeParse
        }
    );
    assert!(matches!(
        attach_error(FailKind::HandshakeParse, String::new()),
        AttachError::HandshakeParseError
    ));
}

#[test]
fn upgrade_success_on_fifth_attempt_connects() {
    let mut phase = step(start(), PhaseEvent::PollOk);
    phase = step(phase, PhaseEvent::SidFound);
    assert_eq!(phase, Phase::Upgrading { failures: 0 });
    assert_eq!(next_action(phase), PhaseAction::Upgrade);
    for i in 1..MAX_UPGRADE_ATTEMPTS {
        phase = step(phase, PhaseEvent::UpgradeFailed);
        assert_eq!(phase, Phase::Upgrading { failures: i });
        assert_eq!(next_action(phase), PhaseAction::WaitThenUpgrade);
    }
    phase = step(phase, PhaseEvent::UpgradeOk);
    assert_eq!(phase, Phase::Probing);
    assert_eq!(next_action(phase), PhaseAction::Probe);
    phase = step(phase, PhaseEvent::ProbeOk);
    assert_eq!(phase, Phase::Connected);
    assert_eq!(next_action(phase), PhaseAction::Succeed);
}

#[test]
fn upgrade_gives_up_after_the_configured_attempts() {
    let mut phase = Phase::Upgrading { failures: 0 };
    for _ in 0..MAX_UPGRADE_ATTEMPTS {
        phase = step(phase, PhaseEvent::UpgradeFailed);
    }
    assert_eq!(
        phase,
        Phase::Failed {
            kind: FailKind::Connect
        }
    );
    let err = attach_error(FailKind::Connect, String::from("connection refused"));
    assert_eq!(
        err,
        AttachError::ConnectError(String::from("connection refused"))
    );
}

#[test]
fn probe_failure_fails_the_attempt() {
    let phase = step(Phase::Probing, PhaseEvent::ProbeFailed);
    assert_eq!(
        phase,
        Phase::Failed {
            kind: FailKind::Connect
        }
    );
}

#[test]
fn commands_drain_in_submission_order() {
    let mut handle = SessionHandle::new(String::from("abc123XY"));
    assert_eq!(handle.session_id(), "abc123XY");
    assert_eq!(handle.pending_count(), 0);
    handle.send(String::from("pwd")).expect("open");
    handle.send(String::from("ls -la")).expect("open");
    handle.send(String::from("whoami")).expect("open");
    assert_eq!(handle.pending_count(), 3);
    let first = handle.next_frame().expect("queued");
    let second = handle.next_frame().expect("queued");
    let third = handle.next_frame().expect("queued");
    assert_eq!(
        first,
        "42[\"message\",{\"action\":\"RUN\",\"args\":{\"command\":\"pwd\",\"hidden\":false}}]"
    );
    assert_eq!(
        second,
        "42[\"message\",{\"action\":\"RUN\",\"args\":{\"command\":\"ls -la\",\"hidden\":false}}]"
    );
    assert_eq!(
        third,
        "42[\"message\",{\"action\":\"RUN\",\"args\":{\"command\":\"whoami\",\"hidden\":false}}]"
    );
    assert_eq!(handle.next_frame(), None);
}

#[test]
fn send_after_close_fails() {
    let mut handle = SessionHandle::new(String::from("s"));
    handle.send(String::from("pwd")).expect("open");
    handle.close();
    assert_eq!(
        handle.send(String::from("ls")),
        Err(SendError::QueueClosed)
    );
    // What was queued before the teardown still drains.
    assert!(handle.next_frame().is_some());
    assert_eq!(handle.next_frame(), None);
}

#[test]
fn execution_results_are_independent_and_equal() {
    let a = ExecutionResult::from_output(String::from("hi\n"), String::new(), Some(0));
    let b = ExecutionResult::from_output(String::from("hi\n"), String::new(), Some(0));
    assert_eq!(a.stdout, "hi\n");
    assert_eq!(a.stderr, "");
    assert_eq!(a.exit_code, Some(0));
    assert_eq!(a.error, None);
    assert_eq!(a, b);
    drop(a);
    assert_eq!(b.stdout, "hi\n");
}

#[test]
fn spawn_error_carries_only_the_error() {
    let r = ExecutionResult::from_spawn_error(String::from("no shell"));
    assert_eq!(r.stdout, "");
    assert_eq!(r.stderr, "");
    assert_eq!(r.exit_code, None);
    assert_eq!(r.error, Some(String::from("no shell")));
}

#[test]
fn install_commands_per_operating_system() {
    let linux = install_commands("linux").expect("supported");
    assert_eq!(linux.len(), 6);
    assert_eq!(linux[0], "sudo apt-get update");
    assert_eq!(
        linux[5],
        "sudo apt-get install -y docker-ce docker-ce-cli containerd.io"
    );
    let macos = install_commands("macos").expect("supported");
    assert_eq!(macos.len(), 2);
    assert_eq!(macos[1], "brew install --cask docker");
    let windows = install_commands("windows").expect("supported");
    assert_eq!(windows, vec!["choco install docker-desktop"]);
    assert_eq!(
        install_commands("plan9"),
        Err(String::from("Unsupported OS: plan9"))
    );
}

#[test]
fn image_listing_is_matched_by_whole_lines() {
    let image = "docker.all-hands.dev/all-hands-ai/runtime:0.16-nikolaik";
    let listing = "alpine:latest\ndocker.all-hands.dev/all-hands-ai/runtime:0.16-nikolaik\nubuntu:22.04\n";
    assert!(image_listed(listing, image));
    assert!(!image_listed("alpine:latest\nubuntu:22.04", image));
    // A prefix of a line is not a match.
    assert!(!image_listed("docker.all-hands.dev/all-hands-ai/runtime:0.16-nikolaik-extra\n", image));
    assert!(!image_listed("", image));
    // Carriage returns before the line feed do not count.
    assert!(image_listed("a\r\ndocker.all-hands.dev/all-hands-ai/runtime:0.16-nikolaik\r\n", image));
}

#[test]
fn decimal_rendering() {
    assert_eq!(u64_string(0), "0");
    assert_eq!(u64_string(7), "7");
    assert_eq!(u64_string(3000), "3000");
    assert_eq!(u64_string(65535), "65535");
    assert_eq!(u64_string(u64::MAX), "18446744073709551615");
}

#[test]
fn launch_config_renders_argument_lists() {
    let config = LaunchConfig {
        runtime_image: String::from("docker.all-hands.dev/all-hands-ai/runtime:0.16-nikolaik"),
        app_image: String::from("docker.all-hands.dev/all-hands-ai/openhands:0.16"),
        state_dir: String::from("/home/user/.openhands"),
        port: 3000,
        container_name: String::from("openhands-app"),
    };
    assert_eq!(
        config.pull_args(),
        vec![
            "pull",
            "docker.all-hands.dev/all-hands-ai/runtime:0.16-nikolaik"
        ]
    );
    assert_eq!(
        config.run_args(),
        vec![
            "run",
            "-d",
            "--rm",
            "--pull=always",
            "-e",
            "SANDBOX_RUNTIME_CONTAINER_IMAGE=docker.all-hands.dev/all-hands-ai/runtime:0.16-nikolaik",
            "-e",
            "LOG_ALL_EVENTS=true",
            "-v",
            "/var/run/docker.sock:/var/run/docker.sock",
            "-v",
            "/home/user/.openhands:/home/openhands/.openhands",
            "-p",
            "3000:3000",
            "--add-host",
            "host.docker.internal:host-gateway",
            "--name",
            "openhands-app",
            "docker.all-hands.dev/all-hands-ai/openhands:0.16"
        ]
    );
}
