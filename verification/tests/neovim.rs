use gpui_libghostty::neovim::{
    connect_failure_message, timed_out_message, DEFAULT_REMOTE_TIMEOUT_NANOS,
    REMOTE_RETRY_INTERVAL_NANOS,
};
use gpui_libghostty::{
    error_detail, nvim_command, open_file_expression, remote_command, server_unavailable,
    shell_quote, socket_file_name, AfterAttempt, AttemptResult, BeforeAttempt, NvimOptions,
    NvimSession, RemoteRetry, StreamSetup,
};

#[test]
fn command_quotes_paths_at_the_ghostty_boundary() {
    assert_eq!(
        nvim_command("/tmp/my nvim", "/tmp/editor.sock", "/tmp/it's.rs", Some(42)),
        "'/tmp/my nvim' --listen '/tmp/editor.sock' +42 -- '/tmp/it'\\''s.rs'"
    );
}

#[test]
fn remote_commands_use_an_expression_instead_of_remote_fallback() {
    let command = remote_command(
        "/tmp/my nvim",
        "/tmp/project",
        "/tmp/editor.sock",
        "cursor(42, 1)",
    );

    assert_eq!(command.current_dir, "/tmp/project");
    assert_eq!(
        command.args,
        [
            "--server",
            "/tmp/editor.sock",
            "--remote-expr",
            "cursor(42, 1)"
        ]
    );
}

#[test]
fn open_expression_escapes_paths_and_moves_the_cursor_atomically() {
    assert_eq!(
        open_file_expression("/tmp/it's.rs", Some(42)),
        "[execute('edit ' . fnameescape('/tmp/it''s.rs')), cursor(42, 1)]"
    );
    assert_eq!(
        open_file_expression("/tmp/plain.rs", None),
        "execute('edit ' . fnameescape('/tmp/plain.rs'))"
    );
}

#[test]
fn remote_command_runs_the_executable_with_piped_errors() {
    let command = remote_command("nvim", "/p", "/s", "1");
    assert_eq!(command.program, "nvim");
    assert_eq!(command.stdin, StreamSetup::Null);
    assert_eq!(command.stdout, StreamSetup::Null);
    assert_eq!(command.stderr, StreamSetup::Piped);
}

#[test]
fn command_without_line_omits_the_cursor_argument() {
    assert_eq!(nvim_command("nvim", "s", "f", None), "'nvim' --listen 's' -- 'f'");
    assert_eq!(nvim_command("nvim", "s", "f", Some(0)), "'nvim' --listen 's' +0 -- 'f'");
    assert_eq!(
        nvim_command("nvim", "s", "f", Some(u64::MAX)),
        "'nvim' --listen 's' +18446744073709551615 -- 'f'"
    );
}

#[test]
fn shell_quote_escapes_every_single_quote() {
    assert_eq!(shell_quote(""), "''");
    assert_eq!(shell_quote("'"), "''\\'''");
    assert_eq!(shell_quote("a''b"), "'a'\\'''\\''b'");
    assert_eq!(shell_quote("naïve ✓"), "'naïve ✓'");
}

#[test]
fn distinct_paths_quote_differently() {
    assert_ne!(shell_quote("a'"), shell_quote("a\\'"));
    assert_ne!(open_file_expression("x'", None), open_file_expression("x''", None));
}

#[test]
fn sockets_of_one_process_have_distinct_names() {
    assert_eq!(socket_file_name(77, 1), "gpui-neovim-77-1.sock");
    assert_ne!(socket_file_name(77, 1), socket_file_name(77, 2));
    assert_ne!(socket_file_name(7, 71), socket_file_name(77, 1));
}

#[test]
fn error_detail_trims_and_prefixes() {
    assert_eq!(error_detail(""), "");
    assert_eq!(error_detail(" \t\n"), "");
    assert_eq!(error_detail("\u{3000}"), "");
    assert_eq!(error_detail("  E247: no server\n"), ": E247: no server");
    assert_eq!(error_detail("a b"), ": a b");
}

#[test]
fn unavailable_servers_are_recognised() {
    assert!(server_unavailable("E247: Failed to connect to server"));
    assert!(server_unavailable("xx Failed to connect"));
    assert!(server_unavailable("E247:"));
    assert!(!server_unavailable("E247"));
    assert!(!server_unavailable("E5108: error"));
    assert!(!server_unavailable(""));
}

#[test]
fn options_default_to_nvim_and_ten_seconds() {
    let options = NvimOptions::new("/p".to_string(), "/p/f.rs".to_string(), None);
    assert_eq!(options.executable, "nvim");
    assert_eq!(options.initial_line, None);
    assert_eq!(options.remote_timeout_nanos, DEFAULT_REMOTE_TIMEOUT_NANOS);
    assert_eq!(options.remote_timeout_nanos, 10_000_000_000);
    let custom = NvimOptions::new("/p".to_string(), "f".to_string(), Some("/opt/nvim".to_string()));
    assert_eq!(custom.executable, "/opt/nvim");
}

#[test]
fn session_starts_neovim_in_the_project_and_opens_files_remotely() {
    let mut options = NvimOptions::new("/proj".to_string(), "/proj/a.rs".to_string(), None);
    options.initial_line = Some(3);
    let (mut session, terminal) = NvimSession::new(options, "/tmp/s.sock".to_string());
    assert_eq!(terminal.command, "'nvim' --listen '/tmp/s.sock' +3 -- '/proj/a.rs'");
    assert_eq!(terminal.working_directory, "/proj");
    assert!(terminal.focus_on_spawn);
    assert_eq!(session.project(), "/proj");
    assert_eq!(session.path(), "/proj/a.rs");

    let request = session.open_request(true, "/proj/b.rs", Some(9)).ok().unwrap();
    assert_eq!(request.socket, "/tmp/s.sock");
    assert_eq!(request.executable, "nvim");
    assert_eq!(request.project, "/proj");
    assert_eq!(
        request.expression,
        "[execute('edit ' . fnameescape('/proj/b.rs')), cursor(9, 1)]"
    );
    assert_eq!(request.timeout_nanos, 10_000_000_000);
    session.opened("/proj/b.rs".to_string());
    assert_eq!(session.path(), "/proj/b.rs");

    let refused = session.open_request(false, "/proj/c.rs", None);
    assert_eq!(refused.err().unwrap(), "the embedded Neovim process has exited");
}

#[test]
fn attempts_get_the_time_left_until_the_timeout() {
    let retry = RemoteRetry::new(1_000);
    match retry.before_attempt("/s", 400) {
        BeforeAttempt::Attempt { remaining_nanos } => assert_eq!(remaining_nanos, 600),
        BeforeAttempt::Fail(_) => panic!("time is left"),
    }
}

#[test]
fn timeout_reports_the_last_connection_error() {
    let mut retry = RemoteRetry::new(DEFAULT_REMOTE_TIMEOUT_NANOS);
    let next = retry.after_attempt(
        AttemptResult::Exited {
            success: false,
            status: "exit status: 1".to_string(),
            stderr: "E247: no server\n".to_string(),
        },
        5_000_000,
    );
    assert!(matches!(next, AfterAttempt::RetryAfter(5_000_000)));
    match retry.before_attempt("/tmp/s.sock", DEFAULT_REMOTE_TIMEOUT_NANOS) {
        BeforeAttempt::Fail(message) => assert_eq!(
            message,
            "connect to embedded Neovim at /tmp/s.sock after 10s: E247: no server"
        ),
        BeforeAttempt::Attempt { .. } => panic!("the timeout has passed"),
    }
}

#[test]
fn retries_pause_at_most_the_retry_interval() {
    let mut retry = RemoteRetry::new(DEFAULT_REMOTE_TIMEOUT_NANOS);
    let next = retry.after_attempt(
        AttemptResult::Exited {
            success: false,
            status: "exit status: 1".to_string(),
            stderr: "Failed to connect".to_string(),
        },
        9_000_000_000,
    );
    assert!(matches!(next, AfterAttempt::RetryAfter(REMOTE_RETRY_INTERVAL_NANOS)));
    assert_eq!(REMOTE_RETRY_INTERVAL_NANOS, 25_000_000);
}

#[test]
fn every_attempt_outcome_is_decided() {
    let mut retry = RemoteRetry::new(DEFAULT_REMOTE_TIMEOUT_NANOS);
    let success = AttemptResult::Exited {
        success: true,
        status: "exit status: 0".to_string(),
        stderr: String::new(),
    };
    assert!(matches!(retry.after_attempt(success, 1), AfterAttempt::Succeeded));

    let refused = AttemptResult::Exited {
        success: false,
        status: "exit status: 2".to_string(),
        stderr: " E5108: bad expression \n".to_string(),
    };
    match retry.after_attempt(refused, 1) {
        AfterAttempt::Fail(message) => assert_eq!(
            message,
            "Neovim remote request exited with exit status: 2: E5108: bad expression"
        ),
        _ => panic!("a refused request fails"),
    }

    let timed_out = AttemptResult::TimedOut { stderr: String::new() };
    match retry.after_attempt(timed_out, 25_000_000) {
        AfterAttempt::Fail(message) => {
            assert_eq!(message, "embedded Neovim remote request timed out after 25ms")
        }
        _ => panic!("a timed out request fails"),
    }

    match retry.after_attempt(AttemptResult::SpawnFailed("not found".to_string()), 1) {
        AfterAttempt::Fail(message) => assert_eq!(message, "contact embedded Neovim: not found"),
        _ => panic!("a request that cannot start fails"),
    }

    match retry.after_attempt(AttemptResult::WaitFailed("interrupted".to_string()), 1) {
        AfterAttempt::Fail(message) => {
            assert_eq!(message, "wait for embedded Neovim: interrupted")
        }
        _ => panic!("a request that cannot be waited for fails"),
    }
}

#[test]
fn failure_messages_are_assembled_in_order() {
    assert_eq!(
        connect_failure_message("/s", "1.5s", ""),
        "connect to embedded Neovim at /s after 1.5s"
    );
    assert_eq!(
        timed_out_message("3s", "slow\n"),
        "embedded Neovim remote request timed out after 3s: slow"
    );
}
