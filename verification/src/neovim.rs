use vstd::prelude::*;

use crate::terminal::{TerminalConfiguration, TerminalOptions};
use crate::text::{
    append_decimal, chars_of, contains_chars, decimal, lemma_decimal_injective,
    lemma_decimal_has_no_dash, lemma_replace_char_front, lemma_replace_char_injective, occurs_in, replace_char,
    replace_char_spec, trim, trim_spec,
};

verus! {

broadcast use vstd::string::group_string_axioms;

/// How long a remote request may take by default: ten seconds.
pub const DEFAULT_REMOTE_TIMEOUT_NANOS: u64 = 10_000_000_000;

/// The longest pause between two attempts to reach the Neovim server:
/// twenty-five milliseconds.
pub const REMOTE_RETRY_INTERVAL_NANOS: u64 = 25_000_000;

/// `text` as a single shell word: wrapped in single quotes, each single
/// quote inside closed, escaped and reopened.
pub open spec fn shell_quote_spec(text: Seq<char>) -> Seq<char> {
    "'"@ + replace_char_spec(text, '\'', "'\\''"@) + "'"@
}

/// Quotes `text` as a single shell word.
pub fn shell_quote(text: &str) -> (quoted: String)
    ensures
        quoted@ == shell_quote_spec(text@),
{
    let mut quoted = String::new();
    quoted.append("'");
    let escaped = replace_char(text, '\'', "'\\''");
    quoted.append(escaped.as_str());
    quoted.append("'");
    quoted
}

/// The shell command that starts Neovim listening on `socket` and editing
/// `path`, at `line` when one is given.
pub open spec fn nvim_command_spec(
    executable: Seq<char>,
    socket: Seq<char>,
    path: Seq<char>,
    line: Option<u64>,
) -> Seq<char> {
    let line_argument = match line {
        Some(n) => " +"@ + decimal(n as nat),
        None => Seq::empty(),
    };
    shell_quote_spec(executable) + " --listen "@ + shell_quote_spec(socket) + line_argument
        + " -- "@ + shell_quote_spec(path)
}

/// Builds the shell command that starts Neovim for the terminal.
pub fn nvim_command(executable: &str, socket: &str, path: &str, line: Option<u64>) -> (command:
    String)
    ensures
        command@ == nvim_command_spec(executable@, socket@, path@, line),
{
    let mut command = shell_quote(executable);
    command.append(" --listen ");
    let quoted_socket = shell_quote(socket);
    command.append(quoted_socket.as_str());
    match line {
        Some(n) => {
            command.append(" +");
            append_decimal(&mut command, n);
        },
        None => {},
    }
    command.append(" -- ");
    let quoted_path = shell_quote(path);
    command.append(quoted_path.as_str());
    command
}

/// The Vim expression that opens `path` and, when a line is given, moves the
/// cursor there in the same request.
pub open spec fn open_file_expression_spec(path: Seq<char>, line: Option<u64>) -> Seq<char> {
    let edit = "execute('edit ' . fnameescape('"@ + replace_char_spec(path, '\'', "''"@)
        + "'))"@;
    match line {
        Some(n) => "["@ + edit + ", cursor("@ + decimal(n as nat) + ", 1)]"@,
        None => edit,
    }
}

/// Builds the Vim expression that opens `path` at `line`.
pub fn open_file_expression(path: &str, line: Option<u64>) -> (expression: String)
    ensures
        expression@ == open_file_expression_spec(path@, line),
{
    let mut edit = String::new();
    edit.append("execute('edit ' . fnameescape('");
    let escaped = replace_char(path, '\'', "''");
    edit.append(escaped.as_str());
    edit.append("'))");
    match line {
        Some(n) => {
            let mut expression = String::new();
            expression.append("[");
            expression.append(edit.as_str());
            expression.append(", cursor(");
            append_decimal(&mut expression, n);
            expression.append(", 1)]");
            expression
        },
        None => edit,
    }
}

/// The detail appended to an error: the trimmed error output after a colon,
/// or nothing when that output is blank.
pub open spec fn error_detail_spec(stderr: Seq<char>) -> Seq<char> {
    if trim_spec(stderr).len() == 0 {
        Seq::empty()
    } else {
        ": "@ + trim_spec(stderr)
    }
}

/// Formats the detail appended to an error from a process's error output.
pub fn error_detail(stderr: &str) -> (detail: String)
    ensures
        detail@ == error_detail_spec(stderr@),
{
    let trimmed = trim(stderr);
    let mut detail = String::new();
    if trimmed.is_empty() {
        detail
    } else {
        detail.append(": ");
        detail.append(trimmed);
        detail
    }
}

/// Whether Neovim's error output says that no server listens on the socket
/// yet.
pub open spec fn server_unavailable_spec(stderr: Seq<char>) -> bool {
    occurs_in(stderr, "E247:"@) || occurs_in(stderr, "Failed to connect"@)
}

/// Decides `server_unavailable_spec`.
pub fn server_unavailable(stderr: &str) -> (unavailable: bool)
    ensures
        unavailable == server_unavailable_spec(stderr@),
{
    let chars = chars_of(stderr);
    let no_server = chars_of("E247:");
    let refused = chars_of("Failed to connect");
    contains_chars(&chars, &no_server) || contains_chars(&chars, &refused)
}

} // verus!

verus! {

/// Where a child process's standard stream goes.
#[derive(Clone, Copy, Debug, PartialEq, Eq, Structural)]
pub enum StreamSetup {
    /// Discarded (or empty, for input).
    Null,
    /// Captured through a pipe.
    Piped,
}

/// A process to run: program, working directory, arguments and the setup
/// of its standard streams.
pub struct RemoteCommand {
    pub program: String,
    pub current_dir: String,
    pub args: Vec<String>,
    pub stdin: StreamSetup,
    pub stdout: StreamSetup,
    pub stderr: StreamSetup,
}

/// The process that asks the Neovim server on `socket` to evaluate
/// `expression`: run from `project`, with its error output captured and its
/// other streams discarded.
pub fn remote_command(executable: &str, project: &str, socket: &str, expression: &str) -> (command:
    RemoteCommand)
    ensures
        command.program@ == executable@,
        command.current_dir@ == project@,
        command.args@.len() == 4,
        command.args@[0]@ == "--server"@,
        command.args@[1]@ == socket@,
        command.args@[2]@ == "--remote-expr"@,
        command.args@[3]@ == expression@,
        command.stdin == StreamSetup::Null,
        command.stdout == StreamSetup::Null,
        command.stderr == StreamSetup::Piped,
{
    let mut args: Vec<String> = Vec::new();
    args.push(String::from_str("--server"));
    args.push(String::from_str(socket));
    args.push(String::from_str("--remote-expr"));
    args.push(String::from_str(expression));
    RemoteCommand {
        program: String::from_str(executable),
        current_dir: String::from_str(project),
        args,
        stdin: StreamSetup::Null,
        stdout: StreamSetup::Null,
        stderr: StreamSetup::Piped,
    }
}

/// The file name of the socket of the `id`-th editor started by process
/// `pid`.
pub open spec fn socket_file_name_spec(pid: u32, id: u64) -> Seq<char> {
    "gpui-neovim-"@ + decimal(pid as nat) + "-"@ + decimal(id as nat) + ".sock"@
}

/// Names the socket of the `id`-th editor started by process `pid`.
pub fn socket_file_name(pid: u32, id: u64) -> (name: String)
    ensures
        name@ == socket_file_name_spec(pid, id),
{
    let mut name = String::new();
    name.append("gpui-neovim-");
    append_decimal(&mut name, pid as u64);
    name.append("-");
    append_decimal(&mut name, id);
    name.append(".sock");
    name
}

/// Configuration for an embedded Neovim instance.
pub struct NvimOptions {
    pub project: String,
    pub initial_file: String,
    pub initial_line: Option<u64>,
    pub executable: String,
    pub remote_timeout_nanos: u64,
}

/// The Neovim executable run when none is configured.
pub open spec fn default_executable() -> Seq<char> {
    "nvim"@
}

impl NvimOptions {
    /// Options that open `initial_file` in `project`, run the executable
    /// named by `executable_override` (the `GPUI_NVIM` setting) or else
    /// `nvim`, and allow remote requests the default ten seconds.
    pub fn new(project: String, initial_file: String, executable_override: Option<String>) -> (
        options: Self)
        ensures
            options.project == project,
            options.initial_file == initial_file,
            options.initial_line is None,
            options.executable@ == (match executable_override {
                Some(executable) => executable@,
                None => default_executable(),
            }),
            options.remote_timeout_nanos == DEFAULT_REMOTE_TIMEOUT_NANOS,
    {
        let executable = match executable_override {
            Some(executable) => executable,
            None => String::from_str("nvim"),
        };
        NvimOptions {
            project,
            initial_file,
            initial_line: None,
            executable,
            remote_timeout_nanos: DEFAULT_REMOTE_TIMEOUT_NANOS,
        }
    }
}

/// The state of an embedded Neovim editor: its project, the file it shows,
/// the socket its server listens on, and how to reach that server.
pub struct NvimSession {
    pub project: String,
    pub path: String,
    pub socket: String,
    pub executable: String,
    pub remote_timeout_nanos: u64,
}

/// One request to the Neovim server.
pub struct RemoteRequest {
    pub executable: String,
    pub project: String,
    pub socket: String,
    pub expression: String,
    pub timeout_nanos: u64,
}

/// The error for a request to an editor whose Neovim process has exited.
pub open spec fn exited_message() -> Seq<char> {
    "the embedded Neovim process has exited"@
}

impl NvimSession {
    /// The session of an editor whose server listens on `socket`, and the
    /// terminal that starts Neovim for it in the project directory.
    pub fn new(options: NvimOptions, socket: String) -> (result: (NvimSession, TerminalOptions))
        ensures
            result.0.project == options.project,
            result.0.path == options.initial_file,
            result.0.socket == socket,
            result.0.executable == options.executable,
            result.0.remote_timeout_nanos == options.remote_timeout_nanos,
            result.1.command@ == nvim_command_spec(
                options.executable@,
                socket@,
                options.initial_file@,
                options.initial_line,
            ),
            result.1.working_directory == options.project,
            result.1.focus_on_spawn,
            result.1.configuration == TerminalConfiguration::Default,
    {
        let command = nvim_command(
            options.executable.as_str(),
            socket.as_str(),
            options.initial_file.as_str(),
            options.initial_line,
        );
        let terminal = TerminalOptions::new(command, options.project.clone());
        let session = NvimSession {
            project: options.project,
            path: options.initial_file,
            socket,
            executable: options.executable,
            remote_timeout_nanos: options.remote_timeout_nanos,
        };
        (session, terminal)
    }

    /// The project directory.
    pub fn project(&self) -> (project: &String)
        ensures
            project == self.project,
    {
        &self.project
    }

    /// The file the editor shows.
    pub fn path(&self) -> (path: &String)
        ensures
            path == self.path,
    {
        &self.path
    }

    /// The request that opens `path` at `line` in the running server, or the
    /// error for an editor whose Neovim process is no longer `alive`.
    pub fn open_request(&self, alive: bool, path: &str, line: Option<u64>) -> (result: Result<
        RemoteRequest,
        String,
    >)
        ensures
            !alive ==> (result matches Err(e) && e@ == exited_message()),
            alive ==> (result matches Ok(request) && request.executable == self.executable
                && request.project == self.project && request.socket == self.socket
                && request.expression@ == open_file_expression_spec(path@, line)
                && request.timeout_nanos == self.remote_timeout_nanos),
    {
        if !alive {
            return Err(String::from_str("the embedded Neovim process has exited"));
        }
        Ok(
            RemoteRequest {
                executable: self.executable.clone(),
                project: self.project.clone(),
                socket: self.socket.clone(),
                expression: open_file_expression(path, line),
                timeout_nanos: self.remote_timeout_nanos,
            },
        )
    }

    /// Records that the server opened `path`.
    pub fn opened(&mut self, path: String)
        ensures
            final(self).path == path,
            final(self).project == old(self).project,
            final(self).socket == old(self).socket,
            final(self).executable == old(self).executable,
            final(self).remote_timeout_nanos == old(self).remote_timeout_nanos,
    {
        self.path = path;
    }
}

} // verus!

verus! {

/// The text `{:?}` gives for a `std::time::Duration` of `nanos` nanoseconds,
/// such as `10s` or `25ms`.
pub uninterp spec fn duration_debug(nanos: u64) -> Seq<char>;

/// Formats a duration of `nanos` nanoseconds the way
/// `<std::time::Duration as Debug>::fmt` does. Trusted: the result is the
/// Debug text of `Duration::from_nanos(nanos)`, named `duration_debug`;
/// nothing more of its form is stated.
#[verifier::external_body]
fn duration_text(nanos: u64) -> (text: String)
    ensures
        text@ == duration_debug(nanos),
{
    format!("{:?}", std::time::Duration::from_nanos(nanos))
}

/// The error once no server answered on `socket` within the timeout, with
/// the last connection error Neovim reported.
pub open spec fn connect_failure_message_spec(
    socket: Seq<char>,
    timeout_text: Seq<char>,
    last_error: Seq<char>,
) -> Seq<char> {
    "connect to embedded Neovim at "@ + socket + " after "@ + timeout_text + error_detail_spec(
        last_error,
    )
}

/// Formats the error once no server answered within the timeout, given the
/// timeout's text.
pub fn connect_failure_message(socket: &str, timeout_text: &str, last_error: &str) -> (message:
    String)
    ensures
        message@ == connect_failure_message_spec(socket@, timeout_text@, last_error@),
{
    let mut message = String::new();
    message.append("connect to embedded Neovim at ");
    message.append(socket);
    message.append(" after ");
    message.append(timeout_text);
    let detail = error_detail(last_error);
    message.append(detail.as_str());
    message
}

/// The error for a request that did not finish within `wait_text`.
pub open spec fn timed_out_message_spec(wait_text: Seq<char>, stderr: Seq<char>) -> Seq<char> {
    "embedded Neovim remote request timed out after "@ + wait_text + error_detail_spec(stderr)
}

/// Formats the error for a request that did not finish in time, given the
/// text of the time it was allowed.
pub fn timed_out_message(wait_text: &str, stderr: &str) -> (message: String)
    ensures
        message@ == timed_out_message_spec(wait_text@, stderr@),
{
    let mut message = String::new();
    message.append("embedded Neovim remote request timed out after ");
    message.append(wait_text);
    let detail = error_detail(stderr);
    message.append(detail.as_str());
    message
}

/// The error for a request that Neovim refused with exit status `status`.
pub open spec fn exit_failure_message_spec(status: Seq<char>, stderr: Seq<char>) -> Seq<char> {
    "Neovim remote request exited with "@ + status + error_detail_spec(stderr)
}

/// The error for a request process that could not be started.
pub open spec fn spawn_failure_message_spec(error: Seq<char>) -> Seq<char> {
    "contact embedded Neovim: "@ + error
}

/// The error for a request process that could not be waited for.
pub open spec fn wait_failure_message_spec(error: Seq<char>) -> Seq<char> {
    "wait for embedded Neovim: "@ + error
}

/// How one attempt to run a remote request ended.
pub enum AttemptResult {
    /// The process exited; `status` is the exit status as text.
    Exited { success: bool, status: String, stderr: String },
    /// The process was still running when its time ran out and was killed.
    TimedOut { stderr: String },
    /// The process could not be started; the system's error as text.
    SpawnFailed(String),
    /// Waiting for the process failed; the system's error as text.
    WaitFailed(String),
}

/// What to do before an attempt.
pub enum BeforeAttempt {
    /// Run the request, allowing it this many nanoseconds.
    Attempt { remaining_nanos: u64 },
    /// Give up with this error.
    Fail(String),
}

/// What to do after an attempt.
pub enum AfterAttempt {
    /// The request succeeded.
    Succeeded,
    /// Give up with this error.
    Fail(String),
    /// The server is not listening yet: wait this many nanoseconds, then
    /// try again.
    RetryAfter(u64),
}

/// The retry policy of a remote request: attempts continue while the server
/// is not yet listening and time remains.
pub struct RemoteRetry {
    pub timeout_nanos: u64,
    /// The error output of the last attempt that found no server.
    pub last_connection_error: String,
}

/// The time left of `timeout` after `elapsed`, never below zero.
pub open spec fn remaining_spec(timeout: u64, elapsed: u64) -> u64 {
    if elapsed < timeout {
        (timeout - elapsed) as u64
    } else {
        0
    }
}

/// The pause before the next attempt: the retry interval, cut short by the
/// time left.
pub open spec fn retry_delay_spec(remaining: u64) -> u64 {
    if remaining < REMOTE_RETRY_INTERVAL_NANOS {
        remaining
    } else {
        REMOTE_RETRY_INTERVAL_NANOS
    }
}

impl RemoteRetry {
    /// The policy for a request allowed `timeout_nanos` in all.
    pub fn new(timeout_nanos: u64) -> (retry: Self)
        ensures
            retry.timeout_nanos == timeout_nanos,
            retry.last_connection_error@ == Seq::<char>::empty(),
    {
        RemoteRetry { timeout_nanos, last_connection_error: String::new() }
    }

    /// Decides, `elapsed_nanos` after the request began, whether to attempt
    /// it again: an attempt gets all the time left; with none left, the
    /// request fails with the last connection error.
    pub fn before_attempt(&self, socket: &str, elapsed_nanos: u64) -> (next: BeforeAttempt)
        ensures
            elapsed_nanos < self.timeout_nanos ==> (next matches BeforeAttempt::Attempt {
                remaining_nanos,
            } && remaining_nanos == remaining_spec(self.timeout_nanos, elapsed_nanos)
                && remaining_nanos + elapsed_nanos == self.timeout_nanos),
            elapsed_nanos >= self.timeout_nanos ==> (next matches BeforeAttempt::Fail(e) && e@
                == connect_failure_message_spec(
                socket@,
                duration_debug(self.timeout_nanos),
                self.last_connection_error@,
            )),
    {
        if elapsed_nanos < self.timeout_nanos {
            BeforeAttempt::Attempt { remaining_nanos: self.timeout_nanos - elapsed_nanos }
        } else {
            let timeout_text = duration_text(self.timeout_nanos);
            BeforeAttempt::Fail(
                connect_failure_message(
                    socket,
                    timeout_text.as_str(),
                    self.last_connection_error.as_str(),
                ),
            )
        }
    }

    /// Decides what follows an attempt that was allowed `remaining_nanos`:
    /// success ends the request; a server that is not listening yet is
    /// retried after a pause; every other failure ends the request with the
    /// error Neovim or the system reported.
    pub fn after_attempt(&mut self, result: AttemptResult, remaining_nanos: u64) -> (next:
        AfterAttempt)
        ensures
            match result {
                AttemptResult::Exited { success, status, stderr } => if success {
                    next is Succeeded && final(self).last_connection_error
                        == old(self).last_connection_error
                } else if server_unavailable_spec(stderr@) {
                    next == AfterAttempt::RetryAfter(retry_delay_spec(remaining_nanos))
                        && final(self).last_connection_error@ == stderr@
                } else {
                    next matches AfterAttempt::Fail(e) && e@ == exit_failure_message_spec(
                        status@,
                        stderr@,
                    ) && final(self).last_connection_error == old(self).last_connection_error
                },
                AttemptResult::TimedOut { stderr } => next matches AfterAttempt::Fail(e) && e@
                    == timed_out_message_spec(duration_debug(remaining_nanos), stderr@)
                    && final(self).last_connection_error == old(self).last_connection_error,
                AttemptResult::SpawnFailed(error) => next matches AfterAttempt::Fail(e) && e@
                    == spawn_failure_message_spec(error@) && final(self).last_connection_error
                    == old(self).last_connection_error,
                AttemptResult::WaitFailed(error) => next matches AfterAttempt::Fail(e) && e@
                    == wait_failure_message_spec(error@) && final(self).last_connection_error
                    == old(self).last_connection_error,
            },
            final(self).timeout_nanos == old(self).timeout_nanos,
    {
        match result {
            AttemptResult::Exited { success, status, stderr } => {
                if success {
                    AfterAttempt::Succeeded
                } else if server_unavailable(stderr.as_str()) {
                    self.last_connection_error = stderr;
                    let delay = if remaining_nanos < REMOTE_RETRY_INTERVAL_NANOS {
                        remaining_nanos
                    } else {
                        REMOTE_RETRY_INTERVAL_NANOS
                    };
                    AfterAttempt::RetryAfter(delay)
                } else {
                    let mut message = String::new();
                    message.append("Neovim remote request exited with ");
                    message.append(status.as_str());
                    let detail = error_detail(stderr.as_str());
                    message.append(detail.as_str());
                    AfterAttempt::Fail(message)
                }
            },
            AttemptResult::TimedOut { stderr } => {
                let wait_text = duration_text(remaining_nanos);
                AfterAttempt::Fail(timed_out_message(wait_text.as_str(), stderr.as_str()))
            },
            AttemptResult::SpawnFailed(error) => {
                let mut message = String::new();
                message.append("contact embedded Neovim: ");
                message.append(error.as_str());
                AfterAttempt::Fail(message)
            },
            AttemptResult::WaitFailed(error) => {
                let mut message = String::new();
                message.append("wait for embedded Neovim: ");
                message.append(error.as_str());
                AfterAttempt::Fail(message)
            },
        }
    }
}

} // verus!

verus! {

/// Distinct paths quote to distinct shell words, so the quoted word always
/// names the path it was made from.
pub proof fn lemma_shell_quote_injective(a: Seq<char>, b: Seq<char>)
    requires
        shell_quote_spec(a) == shell_quote_spec(b),
    ensures
        a == b,
{
    reveal_strlit("'");
    reveal_strlit("'\\''");
    let qa = shell_quote_spec(a);
    let ea = replace_char_spec(a, '\'', "'\\''"@);
    let eb = replace_char_spec(b, '\'', "'\\''"@);
    assert(ea =~= qa.subrange(1, qa.len() - 1));
    assert(eb =~= qa.subrange(1, qa.len() - 1));
    lemma_replace_char_injective(a, b, '\'', "'\\''"@);
}

/// Distinct paths give distinct open expressions.
pub proof fn lemma_open_file_expression_injective(a: Seq<char>, b: Seq<char>, line: Option<u64>)
    requires
        open_file_expression_spec(a, line) == open_file_expression_spec(b, line),
    ensures
        a == b,
{
    reveal_strlit("''");
    let head = "execute('edit ' . fnameescape('"@;
    let tail = "'))"@;
    let ea = replace_char_spec(a, '\'', "''"@);
    let eb = replace_char_spec(b, '\'', "''"@);
    let edit_a = head + ea + tail;
    let edit_b = head + eb + tail;
    match line {
        Some(n) => {
            let open = "["@;
            let rest = ", cursor("@ + decimal(n as nat) + ", 1)]"@;
            let whole = open_file_expression_spec(a, line);
            assert(whole =~= open + edit_a + rest);
            assert(whole =~= open + edit_b + rest);
            assert(edit_a =~= whole.subrange(open.len() as int, whole.len() - rest.len()));
            assert(edit_b =~= whole.subrange(open.len() as int, whole.len() - rest.len()));
        },
        None => {},
    }
    assert(edit_a == edit_b);
    assert(ea =~= edit_a.subrange(head.len() as int, edit_a.len() - tail.len()));
    assert(eb =~= edit_b.subrange(head.len() as int, edit_b.len() - tail.len()));
    lemma_replace_char_injective(a, b, '\'', "''"@);
}

/// Within one process, editors with distinct numbers listen on distinct
/// sockets.
pub proof fn lemma_socket_names_unique(pid: u32, a: u64, b: u64)
    requires
        socket_file_name_spec(pid, a) == socket_file_name_spec(pid, b),
    ensures
        a == b,
{
    let head = "gpui-neovim-"@ + decimal(pid as nat) + "-"@;
    let tail = ".sock"@;
    let na = socket_file_name_spec(pid, a);
    assert(na =~= head + decimal(a as nat) + tail);
    assert(na =~= head + decimal(b as nat) + tail);
    assert(decimal(a as nat) =~= na.subrange(head.len() as int, na.len() - tail.len()));
    assert(decimal(b as nat) =~= na.subrange(head.len() as int, na.len() - tail.len()));
    lemma_decimal_injective(a as nat, b as nat);
}

} // verus!

verus! {

/// `c` followed by the text of `rest`, if `rest` has one.
pub open spec fn prepend_char(c: char, rest: Option<Seq<char>>) -> Option<Seq<char>> {
    match rest {
        Some(text) => Some(seq![c] + text),
        None => None,
    }
}

/// POSIX shell quote removal on a word made only of single-quoted strings
/// and backslash-escaped characters, read outside quotes: the word's literal
/// text, or `None` when the word holds anything else (an unquoted character,
/// which the shell could split or expand, or an unterminated quote).
pub open spec fn sh_unquote(word: Seq<char>) -> Option<Seq<char>>
    decreases word.len(), 0int,
{
    if word.len() == 0 {
        Some(Seq::empty())
    } else if word[0] == '\'' {
        sh_unquote_quoted(word.drop_first())
    } else if word[0] == '\\' && word.len() >= 2 {
        prepend_char(word[1], sh_unquote(word.subrange(2, word.len() as int)))
    } else {
        None
    }
}

/// Quote removal read inside single quotes, where every character up to the
/// closing quote stands for itself.
pub open spec fn sh_unquote_quoted(word: Seq<char>) -> Option<Seq<char>>
    decreases word.len(), 1int,
{
    if word.len() == 0 {
        None
    } else if word[0] == '\'' {
        sh_unquote(word.drop_first())
    } else {
        prepend_char(word[0], sh_unquote_quoted(word.drop_first()))
    }
}

/// Inside quotes, the escaped text of `s` followed by the closing quote reads
/// back as `s`, followed by whatever the rest `tail` reads as.
proof fn lemma_unquote_escaped(s: Seq<char>, tail: Seq<char>)
    ensures
        sh_unquote_quoted(replace_char_spec(s, '\'', "'\\''"@) + "'"@ + tail) == match sh_unquote(
            tail,
        ) {
            Some(rest) => Some(s + rest),
            None => None,
        },
    decreases s.len(),
{
    reveal_strlit("'");
    reveal_strlit("'\\''");
    let to = "'\\''"@;
    let word = replace_char_spec(s, '\'', to) + "'"@ + tail;
    if s.len() == 0 {
        assert(replace_char_spec(s, '\'', to) =~= Seq::<char>::empty());
        assert(word =~= seq!['\''] + tail);
        assert(word.drop_first() =~= tail);
        assert(sh_unquote_quoted(word) == sh_unquote(tail));
        match sh_unquote(tail) {
            Some(rest) => assert(s + rest =~= rest),
            None => {},
        }
    } else {
        lemma_replace_char_front(s, '\'', to);
        let rest_word = replace_char_spec(s.drop_first(), '\'', to) + "'"@ + tail;
        lemma_unquote_escaped(s.drop_first(), tail);
        if s[0] == '\'' {
            assert(word =~= to + rest_word);
            assert(word[0] == '\'');
            let w1 = word.drop_first();
            assert(w1[0] == '\\');
            assert(w1[1] == '\'');
            let w3 = w1.subrange(2, w1.len() as int);
            assert(w3[0] == '\'');
            assert(w3.drop_first() =~= rest_word);
            assert(sh_unquote(w3) == sh_unquote_quoted(rest_word));
            assert(sh_unquote(w1) == prepend_char('\'', sh_unquote(w3)));
            assert(sh_unquote_quoted(word) == sh_unquote(w1));
        } else {
            assert(word =~= seq![s[0]] + rest_word);
            assert(word[0] == s[0]);
            assert(word.drop_first() =~= rest_word);
            assert(sh_unquote_quoted(word) == prepend_char(s[0], sh_unquote_quoted(rest_word)));
        }
        match sh_unquote(tail) {
            Some(rest) => assert(seq![s[0]] + (s.drop_first() + rest) =~= s + rest),
            None => {},
        }
    }
}

/// Quoting survives the shell: quote removal of the quoted word gives back
/// exactly the original text, as one word, with nothing left unquoted to
/// split or expand.
pub proof fn lemma_shell_quote_round_trip(text: Seq<char>)
    ensures
        sh_unquote(shell_quote_spec(text)) == Some(text),
{
    reveal_strlit("'");
    let quoted = shell_quote_spec(text);
    let escaped = replace_char_spec(text, '\'', "'\\''"@);
    lemma_unquote_escaped(text, Seq::empty());
    assert(quoted[0] == '\'');
    assert(quoted.drop_first() =~= escaped + "'"@ + Seq::<char>::empty());
    assert(text + Seq::<char>::empty() =~= text);
}

} // verus!

verus! {

/// An attempt gets all the time left until the timeout: before the timeout
/// the time left and the time elapsed add up to the timeout, and after it
/// none is left.
pub proof fn lemma_attempt_gets_all_time_left(timeout: u64, elapsed: u64)
    ensures
        elapsed < timeout ==> remaining_spec(timeout, elapsed) + elapsed == timeout,
        elapsed >= timeout ==> remaining_spec(timeout, elapsed) == 0,
{
}

/// The text of a Vim single-quoted string body, in which `''` stands for one
/// quote; `None` when a lone quote would end the string early.
pub open spec fn vim_string_text(body: Seq<char>) -> Option<Seq<char>>
    decreases body.len(),
{
    if body.len() == 0 {
        Some(Seq::empty())
    } else if body[0] == '\'' {
        if body.len() >= 2 && body[1] == '\'' {
            prepend_char('\'', vim_string_text(body.subrange(2, body.len() as int)))
        } else {
            None
        }
    } else {
        prepend_char(body[0], vim_string_text(body.drop_first()))
    }
}

proof fn lemma_vim_string_reads_back(path: Seq<char>)
    ensures
        vim_string_text(replace_char_spec(path, '\'', "''"@)) == Some(path),
    decreases path.len(),
{
    reveal_strlit("''");
    let to = "''"@;
    let body = replace_char_spec(path, '\'', to);
    if path.len() == 0 {
        assert(body =~= Seq::<char>::empty());
        assert(path =~= Seq::<char>::empty());
    } else {
        lemma_replace_char_front(path, '\'', to);
        let rest = replace_char_spec(path.drop_first(), '\'', to);
        lemma_vim_string_reads_back(path.drop_first());
        if path[0] == '\'' {
            assert(body =~= to + rest);
            assert(body.subrange(2, body.len() as int) =~= rest);
        } else {
            assert(body =~= seq![path[0]] + rest);
            assert(body.drop_first() =~= rest);
        }
        assert(seq![path[0]] + path.drop_first() =~= path);
    }
}

/// The open expression edits the path through a Vim string that reads back
/// as exactly the path, and with a line it is that same edit followed, in one
/// list, by moving the cursor to the line.
pub proof fn lemma_open_file_expression_quotes_path(path: Seq<char>, line: u64)
    ensures
        ({
            let head = "execute('edit ' . fnameescape('"@;
            let tail = "'))"@;
            let edit = open_file_expression_spec(path, None);
            &&& edit.len() >= head.len() + tail.len()
            &&& edit.subrange(0, head.len() as int) == head
            &&& edit.subrange(edit.len() - tail.len(), edit.len() as int) == tail
            &&& vim_string_text(edit.subrange(head.len() as int, edit.len() - tail.len()))
                == Some(path)
            &&& open_file_expression_spec(path, Some(line)) == "["@ + edit + ", cursor("@
                + decimal(line as nat) + ", 1)]"@
        }),
{
    let head = "execute('edit ' . fnameescape('"@;
    let tail = "'))"@;
    let body = replace_char_spec(path, '\'', "''"@);
    let edit = open_file_expression_spec(path, None);
    assert(edit == head + body + tail);
    assert(edit.subrange(0, head.len() as int) =~= head);
    assert(edit.subrange(edit.len() - tail.len(), edit.len() as int) =~= tail);
    assert(edit.subrange(head.len() as int, edit.len() - tail.len()) =~= body);
    lemma_vim_string_reads_back(path);
}

/// Socket names tell apart both the process and the editor: equal names mean
/// the same process id and the same editor number.
pub proof fn lemma_socket_names_identify_process_and_editor(
    pid1: u32,
    id1: u64,
    pid2: u32,
    id2: u64,
)
    requires
        socket_file_name_spec(pid1, id1) == socket_file_name_spec(pid2, id2),
    ensures
        pid1 == pid2,
        id1 == id2,
{
    reveal_strlit("-");
    let prefix = "gpui-neovim-"@;
    let tail = ".sock"@;
    let d1 = decimal(pid1 as nat);
    let d2 = decimal(pid2 as nat);
    let r1 = d1 + "-"@ + decimal(id1 as nat);
    let r2 = d2 + "-"@ + decimal(id2 as nat);
    let name = socket_file_name_spec(pid1, id1);
    assert(name =~= prefix + r1 + tail);
    assert(name =~= prefix + r2 + tail);
    assert(r1 =~= name.subrange(prefix.len() as int, name.len() - tail.len()));
    assert(r2 =~= name.subrange(prefix.len() as int, name.len() - tail.len()));
    lemma_decimal_has_no_dash(pid1 as nat);
    lemma_decimal_has_no_dash(pid2 as nat);
    if d1.len() < d2.len() {
        assert(r1[d1.len() as int] == '-');
        assert(r2[d1.len() as int] == d2[d1.len() as int]);
    } else if d2.len() < d1.len() {
        assert(r2[d2.len() as int] == '-');
        assert(r1[d2.len() as int] == d1[d2.len() as int]);
    }
    assert(d1 =~= r1.subrange(0, d1.len() as int));
    assert(d2 =~= r2.subrange(0, d2.len() as int));
    lemma_decimal_injective(pid1 as nat, pid2 as nat);
    assert(decimal(id1 as nat) =~= r1.subrange(d1.len() + 1int, r1.len() as int));
    assert(decimal(id2 as nat) =~= r2.subrange(d2.len() + 1int, r2.len() as int));
    lemma_decimal_injective(id1 as nat, id2 as nat);
}

} // verus!

verus! {

/// The pause before a retry is the retry interval of 25 ms, cut short to the
/// time left when less remains; it never outlasts either.
pub proof fn lemma_retry_pause_is_interval_cut_short(remaining: u64)
    ensures
        retry_delay_spec(remaining) <= 25_000_000,
        retry_delay_spec(remaining) <= remaining,
        remaining >= 25_000_000 ==> retry_delay_spec(remaining) == 25_000_000,
        remaining < 25_000_000 ==> retry_delay_spec(remaining) == remaining,
{
}

} // verus!
