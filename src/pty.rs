//! The session registry: which terminal sessions exist, how each is backed,
//! and what must be done to create, reattach, resize, detach and close them.
//!
//! The registry owns each session's transport (the pseudo-terminal handles
//! and the child process, of type `T`) but never performs I/O itself. Each
//! operation decides, updates the map, and hands back the process to spawn or
//! the tmux commands to run; the caller performs them.
use vstd::prelude::*;
use vstd::string::*;
use crate::shell::{
    dir_label, env_views, managed_env, managed_env_vars, native_args, native_command, native_env,
    dir_label_of, family_of, shell_family, shell_invocation, shell_invocation_string, CommandSpec,
};
use crate::text::{chars_equal, opt_string_view, opt_view, views};
use crate::tmux::{
    configure_args, configure_commands, new_session_args, new_session_command, resize_window_args,
    resize_window_command, target_args, target_command, tmux_name_for, tmux_name_of,
    tmux_shell_command, tmux_shell_command_string,
};

verus! {

/// Output read from a session's terminal.
pub struct PtyOutputEvent {
    pub session_id: String,
    pub data: Vec<u8>,
}

/// A session's process ended, with its exit code when one was observed.
pub struct PtyExitEvent {
    pub session_id: String,
    pub exit_code: Option<i32>,
}

/// An error observed on a session outside any caller's request.
pub struct PtyErrorEvent {
    pub session_id: String,
    pub error: String,
}

/// How a session is backed.
pub enum SessionBackend {
    /// The terminal's child is the shell or command itself; nothing persists.
    Native,
    /// The terminal's child is a tmux client attached to a named tmux
    /// session, which outlives it.
    Tmux { tmux_name: String },
}

/// Errors of the registry's operations. Each carries the session ID, the
/// tmux name or the cause it is about.
#[derive(Debug)]
pub enum PtyError {
    /// A session with this ID, or this tmux name, is already tracked.
    AlreadyExists(String),
    /// No session with this ID is tracked, or the tmux session is gone.
    NotFound(String),
    /// The pseudo-terminal or its process could not be created.
    SpawnFailed(String),
    /// A tmux control command failed.
    ExternalCommandFailed(String),
    /// Writing to or resizing a live terminal failed.
    IoFailure(String),
}

impl PtyError {
    /// A readable description of the error.
    pub fn message(&self) -> (r: String)
        ensures
            r@ == match self {
                PtyError::AlreadyExists(id) => "Session "@ + id@ + " already exists"@,
                PtyError::NotFound(id) => "Session "@ + id@ + " not found"@,
                PtyError::SpawnFailed(c) => "Failed to start terminal: "@ + c@,
                PtyError::ExternalCommandFailed(c) => "tmux error: "@ + c@,
                PtyError::IoFailure(c) => "Terminal I/O failed: "@ + c@,
            },
    {
        match self {
            PtyError::AlreadyExists(id) => {
                let mut r = String::from_str("Session ");
                r.append(id.as_str());
                r.append(" already exists");
                r
            },
            PtyError::NotFound(id) => {
                let mut r = String::from_str("Session ");
                r.append(id.as_str());
                r.append(" not found");
                r
            },
            PtyError::SpawnFailed(c) => {
                let mut r = String::from_str("Failed to start terminal: ");
                r.append(c.as_str());
                r
            },
            PtyError::ExternalCommandFailed(c) => {
                let mut r = String::from_str("tmux error: ");
                r.append(c.as_str());
                r
            },
            PtyError::IoFailure(c) => {
                let mut r = String::from_str("Terminal I/O failed: ");
                r.append(c.as_str());
                r
            },
        }
    }
}

/// The IDs whose process was found running, in the given order.
pub open spec fn running_ids(ids: Seq<Seq<char>>, running: Seq<bool>) -> Seq<Seq<char>>
    decreases ids.len(),
{
    if ids.len() == 0 || running.len() != ids.len() {
        seq![]
    } else if running.last() {
        running_ids(ids.drop_last(), running.drop_last()).push(ids.last())
    } else {
        running_ids(ids.drop_last(), running.drop_last())
    }
}

/// The sessions among `ids` whose process is running, where `running[i]`
/// tells it of `ids[i]`. Their number is the count of active sessions.
pub fn select_running(ids: &Vec<String>, running: &Vec<bool>) -> (r: Vec<String>)
    requires
        ids@.len() == running@.len(),
    ensures
        views(r@) == running_ids(views(ids@), running@),
{
    let mut out: Vec<String> = Vec::new();
    let mut i: usize = 0;
    while i < ids.len()
        invariant
            ids@.len() == running@.len(),
            i <= ids@.len(),
            views(out@) == running_ids(views(ids@).subrange(0, i as int), running@.subrange(0, i as int)),
        decreases ids@.len() - i,
    {
        let ghost before = out@;
        assert(views(ids@).subrange(0, i + 1).drop_last() =~= views(ids@).subrange(0, i as int));
        assert(running@.subrange(0, i + 1).drop_last() =~= running@.subrange(0, i as int));
        if running[i] {
            out.push(ids[i].clone());
            assert(views(out@) =~= views(before).push(ids@[i as int]@));
        }
        i = i + 1;
    }
    assert(views(ids@).subrange(0, ids@.len() as int) =~= views(ids@));
    assert(running@.subrange(0, ids@.len() as int) =~= running@);
    out
}

/// A request for a new session, as the front end sends it.
pub struct CreatePtyInput {
    /// Working directory for the shell.
    pub working_directory: String,
    /// A one-shot command to run instead of the interactive shell.
    pub command: Option<String>,
    pub cols: u16,
    pub rows: u16,
    /// An optional name hint for the session.
    pub session_name: Option<String>,
}

/// The answer to a `CreatePtyInput`.
pub struct CreatePtyResult {
    pub session_id: String,
    /// The tmux session name; `None` for a native session.
    pub tmux_name: Option<String>,
}

/// Listing information about a tracked session.
pub struct SessionInfo {
    pub session_id: String,
    pub working_directory: String,
    pub created_at: String,
}

/// A tracked session.
pub struct TerminalSession<T> {
    pub id: String,
    /// How the session is backed; fixed for its lifetime.
    pub backend: SessionBackend,
    /// The pseudo-terminal handles and child process.
    pub transport: T,
    pub working_directory: String,
    /// RFC 3339 time of creation or reattachment.
    pub created_at: String,
    /// The last terminal size applied, columns then rows.
    pub cols: u16,
    pub rows: u16,
}

/// The external tmux name behind a backend, if any.
pub open spec fn backend_name(b: SessionBackend) -> Option<Seq<char>> {
    match b {
        SessionBackend::Native => None,
        SessionBackend::Tmux { tmux_name } => Some(tmux_name@),
    }
}

pub open spec fn session_ids<T>(s: Seq<TerminalSession<T>>) -> Seq<Seq<char>> {
    s.map_values(|x: TerminalSession<T>| x.id@)
}

pub open spec fn tracks<T>(s: Seq<TerminalSession<T>>, id: Seq<char>) -> bool {
    exists|i: int| 0 <= i < s.len() && s[i].id@ == id
}

/// Whether a session other than `id` is backed by the tmux session `name`.
pub open spec fn name_used_by_other<T>(s: Seq<TerminalSession<T>>, name: Seq<char>, id: Seq<char>) -> bool {
    exists|i: int| 0 <= i < s.len() && backend_name(s[i].backend) == Some(name) && s[i].id@ != id
}

/// Session IDs are unique, and no two sessions share a tmux session.
pub open spec fn sessions_wf<T>(s: Seq<TerminalSession<T>>) -> bool {
    forall|i: int, j: int|
        0 <= i < s.len() && 0 <= j < s.len() && i != j ==> s[i].id@ != s[j].id@ && (
        backend_name(s[i].backend) is None || backend_name(s[i].backend) != backend_name(
            s[j].backend,
        ))
}

pub open spec fn opt_args_view(o: Option<Vec<String>>) -> Option<Seq<Seq<char>>> {
    match o {
        Some(v) => Some(views(v@)),
        None => None,
    }
}

/// What the caller does to bring up a new session.
pub struct SessionPlan {
    /// The backend the session will have.
    pub backend: SessionBackend,
    /// For tmux: the `new-session` command, which must succeed first.
    pub tmux_create: Option<Vec<String>>,
    /// For tmux: options to set afterwards; their failure is ignored.
    pub tmux_options: Vec<Vec<String>>,
    /// The process to spawn on the new pseudo-terminal.
    pub spawn: CommandSpec,
    /// Whether the session runs a one-shot command whose exit is to be watched.
    pub watch_exit: bool,
}

/// What the caller does to reattach to a surviving tmux session.
pub struct AttachPlan {
    /// `has-session`: the tmux session must still exist.
    pub probe: Vec<String>,
    /// `resize-window` to the new size; its failure is ignored.
    pub resize: Vec<String>,
    /// The attach client to spawn on a new pseudo-terminal.
    pub spawn: CommandSpec,
}

/// The outcome of a resize request.
pub enum ResizeAction {
    /// A dimension below 2: nothing is resized.
    Ignore,
    /// Resize the pseudo-terminal and, for tmux, also run `tmux_resize`.
    Apply { tmux_resize: Option<Vec<String>> },
}

/// A session taken out of the registry, with what its caller must still do.
pub struct Teardown<T> {
    pub session_id: String,
    pub backend: SessionBackend,
    /// Kill the local process if it is still running.
    pub transport: T,
    /// A `kill-session` to run for a tmux session that ends for good.
    pub kill_external: Option<Vec<String>>,
    /// Whether an exit event is to be published for the session.
    pub report_exit: bool,
}

/// How to tell whether a session is alive.
pub enum ActivityCheck {
    /// No such session: not active.
    Untracked,
    /// Active while tmux reports that its session exists (`has-session`).
    External(Vec<String>),
    /// Active while its local process runs.
    Local,
}

/// Whether creating session `id` conflicts with what is tracked: the ID is
/// taken, or tmux is chosen and another session already has its tmux name.
pub open spec fn create_conflict<T>(s: Seq<TerminalSession<T>>, tmux: bool, id: Seq<char>) -> bool {
    tracks(s, id) || (tmux && name_used_by_other(s, tmux_name_of(id), id))
}

/// Whether a session `id` with `backend` cannot be added to what is tracked.
pub open spec fn register_conflict<T>(s: Seq<TerminalSession<T>>, id: Seq<char>, backend: SessionBackend) -> bool {
    tracks(s, id) || match backend_name(backend) {
        Some(n) => name_used_by_other(s, n, id),
        None => false,
    }
}

/// The plan for session `id`: with tmux, a detached tmux session running the
/// session's shell command, configured, and a client attached to it; without,
/// the shell itself.
pub open spec fn plan_ok(
    p: SessionPlan,
    shell: Seq<char>,
    tmux: bool,
    id: Seq<char>,
    working_dir: Seq<char>,
    command: Option<Seq<char>>,
    cols: u16,
    rows: u16,
) -> bool {
    let f = family_of(shell);
    &&& p.watch_exit == command.is_some()
    &&& if tmux {
        let name = tmux_name_of(id);
        &&& backend_name(p.backend) == Some(name)
        &&& opt_args_view(p.tmux_create) == Some(
            new_session_args(
                name,
                working_dir,
                cols,
                rows,
                tmux_shell_command(shell, f, command, dir_label_of(working_dir)),
            ),
        )
        &&& p.tmux_options@.map_values(|v: Vec<String>| views(v@)) == configure_args(
            name,
            if command is None {
                Some(shell_invocation(shell, f))
            } else {
                None
            },
        )
        &&& attach_spawn_ok(p.spawn, name, working_dir)
    } else {
        &&& p.backend is Native
        &&& p.tmux_create is None
        &&& p.tmux_options@.len() == 0
        &&& p.spawn.program@ == shell
        &&& p.spawn.cwd@ == working_dir
        &&& views(p.spawn.args@) == native_args(f, command)
        &&& env_views(p.spawn.env@) == native_env(f, command, dir_label_of(working_dir))
    }
}

/// The session as registered.
pub open spec fn session_ok<T>(
    x: TerminalSession<T>,
    id: Seq<char>,
    backend: SessionBackend,
    transport: T,
    working_dir: Seq<char>,
    cols: u16,
    rows: u16,
) -> bool {
    &&& x.id@ == id
    &&& x.backend == backend
    &&& x.transport == transport
    &&& x.working_directory@ == working_dir
    &&& x.cols == cols
    &&& x.rows == rows
}

/// The index of the session `id` (meaningful when it is tracked).
pub open spec fn index_of_id<T>(s: Seq<TerminalSession<T>>, id: Seq<char>) -> int {
    choose|i: int| 0 <= i < s.len() && s[i].id@ == id
}

/// The attach plan for the tmux session `name`.
pub open spec fn attach_plan_ok(p: AttachPlan, name: Seq<char>, working_dir: Seq<char>, cols: u16, rows: u16) -> bool {
    &&& views(p.probe@) == target_args("has-session"@, name)
    &&& views(p.resize@) == resize_window_args(name, cols, rows)
    &&& attach_spawn_ok(p.spawn, name, working_dir)
}

/// The session with its terminal size changed.
pub open spec fn resized<T>(x: TerminalSession<T>, cols: u16, rows: u16) -> TerminalSession<T> {
    TerminalSession { cols, rows, ..x }
}

/// A dimension below 2 is never applied: a hidden front end reports such sizes.
pub open spec fn degenerate_size(cols: u16, rows: u16) -> bool {
    cols < 2 || rows < 2
}

/// The sessions after a size was recorded for `id`.
pub open spec fn after_resize<T>(s: Seq<TerminalSession<T>>, id: Seq<char>, cols: u16, rows: u16) -> Seq<TerminalSession<T>> {
    if degenerate_size(cols, rows) || !tracks(s, id) {
        s
    } else {
        let i = index_of_id(s, id);
        s.update(i, resized(s[i], cols, rows))
    }
}

/// The recorded size of session `id`.
pub open spec fn size_in<T>(s: Seq<TerminalSession<T>>, id: Seq<char>) -> Option<(u16, u16)> {
    if tracks(s, id) {
        let i = index_of_id(s, id);
        Some((s[i].cols, s[i].rows))
    } else {
        None
    }
}

/// The sessions after session `id` was taken out.
pub open spec fn without<T>(s: Seq<TerminalSession<T>>, id: Seq<char>) -> Seq<TerminalSession<T>> {
    s.remove(index_of_id(s, id))
}

/// The teardown of `x`: when `end_external`, a tmux session ends with it.
pub open spec fn teardown_ok<T>(t: Teardown<T>, x: TerminalSession<T>, end_external: bool, report_exit: bool) -> bool {
    &&& t.session_id@ == x.id@
    &&& t.backend == x.backend
    &&& t.transport == x.transport
    &&& t.report_exit == report_exit
    &&& opt_args_view(t.kill_external) == if end_external {
        match backend_name(x.backend) {
            Some(n) => Some(target_args("kill-session"@, n)),
            None => None,
        }
    } else {
        None
    }
}

/// The process a tmux-backed session's terminal runs: a tmux client attached
/// to the named session.
pub open spec fn attach_spawn_ok(r: CommandSpec, name: Seq<char>, working_dir: Seq<char>) -> bool {
    &&& r.program@ == "tmux"@
    &&& views(r.args@) == target_args("attach-session"@, name)
    &&& r.cwd@ == working_dir
    &&& env_views(r.env@) == managed_env()
}

/// The tmux client command attaching to the session `name`.
pub fn attach_command(name: &str, working_dir: &str) -> (r: CommandSpec)
    ensures
        attach_spawn_ok(r, name@, working_dir@),
{
    CommandSpec {
        program: String::from_str("tmux"),
        args: target_command("attach-session", name),
        cwd: String::from_str(working_dir),
        env: managed_env_vars(),
    }
}

/// Relies on `chrono::Utc::now` and `DateTime::to_rfc3339` for the current
/// time; nothing is assumed of the text.
#[verifier::external_body]
fn now_rfc3339() -> (r: String) {
    chrono::Utc::now().to_rfc3339()
}

fn teardown_of<T>(x: TerminalSession<T>, end_external: bool, report_exit: bool) -> (r: Teardown<T>)
    ensures
        teardown_ok(r, x, end_external, report_exit),
{
    let kill_external = if end_external {
        match &x.backend {
            SessionBackend::Tmux { tmux_name } => Some(target_command("kill-session", tmux_name.as_str())),
            SessionBackend::Native => None,
        }
    } else {
        None
    };
    Teardown { session_id: x.id, backend: x.backend, transport: x.transport, kill_external, report_exit }
}

impl<T> TerminalSession<T> {
    /// The tmux session behind this session, if any.
    pub fn tmux_name(&self) -> (r: Option<&str>)
        ensures
            opt_view(r) == backend_name(self.backend),
    {
        match &self.backend {
            SessionBackend::Tmux { tmux_name } => Some(tmux_name.as_str()),
            SessionBackend::Native => None,
        }
    }
}

/// Manages terminal sessions, optionally backed by tmux.
pub struct TerminalManager<T> {
    /// The tracked sessions, in creation order.
    pub sessions: Vec<TerminalSession<T>>,
    /// The user's shell, used for every new session.
    pub default_shell: String,
    /// Whether tmux was found at startup.
    pub tmux_available: bool,
    /// The version tmux reported, when found.
    pub tmux_version: Option<String>,
    /// Whether new sessions should be backed by tmux (a user preference).
    pub use_tmux: bool,
}

impl<T> TerminalManager<T> {
    /// The tracked sessions, in creation order.
    pub open spec fn entries(&self) -> Seq<TerminalSession<T>> {
        self.sessions@
    }

    pub open spec fn shell(&self) -> Seq<char> {
        self.default_shell@
    }

    pub open spec fn wf(&self) -> bool {
        sessions_wf(self.entries())
    }

    pub open spec fn tracks(&self, id: Seq<char>) -> bool {
        tracks(self.entries(), id)
    }

    pub open spec fn tmux_chosen(&self) -> bool {
        self.tmux_available && self.use_tmux
    }

    /// A manager with no sessions. `default_shell` is the user's shell, and
    /// `tmux_version` what `tmux -V` printed, or `None` when tmux is absent.
    pub fn new(use_tmux: bool, default_shell: String, tmux_version: Option<String>) -> (r: Self)
        ensures
            r.wf(),
            r.entries().len() == 0,
            r.shell() == default_shell@,
            r.tmux_available == tmux_version.is_some(),
            r.tmux_version == tmux_version,
            r.use_tmux == use_tmux,
    {
        let tmux_available = tmux_version.is_some();
        TerminalManager { sessions: Vec::new(), default_shell, tmux_available, tmux_version, use_tmux }
    }

    /// Whether a new session would be backed by tmux.
    pub fn should_use_tmux(&self) -> (r: bool)
        ensures
            r == self.tmux_chosen(),
    {
        self.tmux_available && self.use_tmux
    }

    /// Changes the preference for tmux; existing sessions keep their backend.
    pub fn set_use_tmux(&mut self, enabled: bool)
        ensures
            final(self).use_tmux == enabled,
            final(self).tmux_available == old(self).tmux_available,
            final(self).tmux_version == old(self).tmux_version,
            final(self).entries() == old(self).entries(),
            final(self).shell() == old(self).shell(),
    {
        self.use_tmux = enabled;
    }

    /// Decides how session `session_id` is to be created, without creating it.
    /// Fails with `AlreadyExists` when the ID is tracked, or when tmux is chosen
    /// and another session already has the same tmux name.
    pub fn create_session(
        &self,
        session_id: &str,
        working_dir: &str,
        command: Option<&str>,
        cols: u16,
        rows: u16,
    ) -> (r: Result<SessionPlan, PtyError>)
        ensures
            match r {
                Err(e) => e is AlreadyExists && create_conflict(
                    self.entries(),
                    self.tmux_chosen(),
                    session_id@,
                ),
                Ok(p) => !create_conflict(self.entries(), self.tmux_chosen(), session_id@)
                    && plan_ok(
                    p,
                    self.shell(),
                    self.tmux_chosen(),
                    session_id@,
                    working_dir@,
                    opt_view(command),
                    cols,
                    rows,
                ),
            },
    {
        if self.position(session_id).is_some() {
            return Err(PtyError::AlreadyExists(String::from_str(session_id)));
        }
        let shell = self.default_shell.as_str();
        let f = shell_family(shell);
        if self.should_use_tmux() {
            let name = tmux_name_for(session_id);
            if self.name_taken(name.as_str(), session_id) {
                return Err(PtyError::AlreadyExists(name));
            }
            let label = dir_label(working_dir);
            let shell_command = tmux_shell_command_string(shell, f, command, label.as_str());
            let create = new_session_command(name.as_str(), working_dir, cols, rows, shell_command);
            let default_command = match command {
                None => Some(shell_invocation_string(shell, f)),
                Some(_) => None,
            };
            let options = configure_commands(name.as_str(), default_command);
            let spawn = attach_command(name.as_str(), working_dir);
            Ok(
                SessionPlan {
                    backend: SessionBackend::Tmux { tmux_name: name },
                    tmux_create: Some(create),
                    tmux_options: options,
                    spawn,
                    watch_exit: command.is_some(),
                },
            )
        } else {
            let spawn = native_command(shell, working_dir, command);
            let options: Vec<Vec<String>> = Vec::new();
            assert(options@.map_values(|v: Vec<String>| views(v@)).len() == 0);
            Ok(
                SessionPlan {
                    backend: SessionBackend::Native,
                    tmux_create: None,
                    tmux_options: options,
                    spawn,
                    watch_exit: command.is_some(),
                },
            )
        }
    }

    /// Starts tracking a session whose transport was opened by the caller.
    /// A conflicting ID or tmux name is refused with `AlreadyExists`; the
    /// transport is then handed back and nothing tracked changes.
    pub fn register_session(
        &mut self,
        session_id: String,
        backend: SessionBackend,
        transport: T,
        working_dir: String,
        cols: u16,
        rows: u16,
    ) -> (r: Result<(), (PtyError, T)>)
        requires
            old(self).wf(),
        ensures
            final(self).wf(),
            final(self).shell() == old(self).shell(),
            final(self).tmux_chosen() == old(self).tmux_chosen(),
            match r {
                Err((e, t)) => e is AlreadyExists && t == transport && register_conflict(
                    old(self).entries(),
                    session_id@,
                    backend,
                ) && final(self).entries() == old(self).entries(),
                Ok(()) => !register_conflict(old(self).entries(), session_id@, backend)
                    && final(self).entries().len() == old(self).entries().len() + 1
                    && final(self).entries().drop_last() == old(self).entries() && session_ok(
                    final(self).entries().last(),
                    session_id@,
                    backend,
                    transport,
                    working_dir@,
                    cols,
                    rows,
                ),
            },
    {
        if self.position(session_id.as_str()).is_some() {
            return Err((PtyError::AlreadyExists(session_id), transport));
        }
        let taken = match &backend {
            SessionBackend::Tmux { tmux_name } => self.name_taken(tmux_name.as_str(), session_id.as_str()),
            SessionBackend::Native => false,
        };
        if taken {
            return Err((PtyError::AlreadyExists(session_id), transport));
        }
        let session = TerminalSession {
            id: session_id,
            backend,
            transport,
            working_directory: working_dir,
            created_at: now_rfc3339(),
            cols,
            rows,
        };
        self.sessions.push(session);
        assert(self.entries().drop_last() =~= old(self).entries());
        Ok(())
    }

    /// Decides how to reattach session `session_id` to the surviving tmux
    /// session `tmux_name`. Fails with `AlreadyExists` when another session is
    /// backed by that tmux session.
    pub fn attach_session(
        &self,
        session_id: &str,
        tmux_name: &str,
        working_dir: &str,
        cols: u16,
        rows: u16,
    ) -> (r: Result<AttachPlan, PtyError>)
        ensures
            match r {
                Err(e) => e is AlreadyExists && name_used_by_other(
                    self.entries(),
                    tmux_name@,
                    session_id@,
                ),
                Ok(p) => !name_used_by_other(self.entries(), tmux_name@, session_id@)
                    && attach_plan_ok(p, tmux_name@, working_dir@, cols, rows),
            },
    {
        if self.name_taken(tmux_name, session_id) {
            return Err(PtyError::AlreadyExists(String::from_str(tmux_name)));
        }
        Ok(
            AttachPlan {
                probe: target_command("has-session", tmux_name),
                resize: resize_window_command(tmux_name, cols, rows),
                spawn: attach_command(tmux_name, working_dir),
            },
        )
    }

    /// The outcome of the `has-session` probe of an attach plan: the tmux
    /// session `tmux_name` must still exist, else the attach is `NotFound`.
    pub fn confirm_attach(exists: bool, tmux_name: &str) -> (r: Result<(), PtyError>)
        ensures
            exists <==> r is Ok,
            r matches Err(e) ==> e is NotFound,
    {
        if exists {
            Ok(())
        } else {
            Err(PtyError::NotFound(String::from_str(tmux_name)))
        }
    }

    /// Tracks session `session_id` as attached to `tmux_name` through a new
    /// transport, replacing in place the session of that ID if there is one;
    /// its transport is handed back for the caller to close. Another session
    /// backed by `tmux_name` is refused with `AlreadyExists`.
    pub fn replace_session(
        &mut self,
        session_id: String,
        tmux_name: String,
        transport: T,
        working_dir: String,
        cols: u16,
        rows: u16,
    ) -> (r: Result<Option<T>, (PtyError, T)>)
        requires
            old(self).wf(),
        ensures
            final(self).wf(),
            final(self).shell() == old(self).shell(),
            final(self).tmux_chosen() == old(self).tmux_chosen(),
            match r {
                Err((e, t)) => e is AlreadyExists && t == transport && name_used_by_other(
                    old(self).entries(),
                    tmux_name@,
                    session_id@,
                ) && final(self).entries() == old(self).entries(),
                Ok(prev) => !name_used_by_other(old(self).entries(), tmux_name@, session_id@) && if old(
                    self,
                ).tracks(session_id@) {
                    let i = index_of_id(old(self).entries(), session_id@);
                    &&& prev == Some(old(self).entries()[i].transport)
                    &&& final(self).entries().len() == old(self).entries().len()
                    &&& forall|j: int|
                        0 <= j < old(self).entries().len() && j != i ==> final(self).entries()[j]
                            == old(self).entries()[j]
                    &&& session_ok(
                        final(self).entries()[i],
                        session_id@,
                        SessionBackend::Tmux { tmux_name },
                        transport,
                        working_dir@,
                        cols,
                        rows,
                    )
                } else {
                    &&& prev is None
                    &&& final(self).entries().drop_last() == old(self).entries()
                    &&& final(self).entries().len() == old(self).entries().len() + 1
                    &&& session_ok(
                        final(self).entries().last(),
                        session_id@,
                        SessionBackend::Tmux { tmux_name },
                        transport,
                        working_dir@,
                        cols,
                        rows,
                    )
                },
            },
    {
        if self.name_taken(tmux_name.as_str(), session_id.as_str()) {
            return Err((PtyError::AlreadyExists(tmux_name), transport));
        }
        let pos = self.position(session_id.as_str());
        let session = TerminalSession {
            id: session_id,
            backend: SessionBackend::Tmux { tmux_name },
            transport,
            working_directory: working_dir,
            created_at: now_rfc3339(),
            cols,
            rows,
        };
        match pos {
            Some(i) => {
                let ghost id = session.id@;
                let old_session = self.sessions.remove(i);
                self.sessions.insert(i, session);
                assert(self.entries() =~= old(self).entries().update(i as int, self.entries()[i as int]));
                assert(index_of_id(old(self).entries(), id) == i) by {
                    let k = index_of_id(old(self).entries(), id);
                    assert(old(self).entries()[i as int].id@ == id);
                };
                Ok(Some(old_session.transport))
            },
            None => {
                self.sessions.push(session);
                assert(self.entries().drop_last() =~= old(self).entries());
                Ok(None)
            },
        }
    }

    /// The transport of session `session_id`, for writing to or querying it.
    pub fn session_transport(&self, session_id: &str) -> (r: Result<&T, PtyError>)
        requires
            self.wf(),
        ensures
            match r {
                Ok(t) => self.tracks(session_id@) && *t == self.entries()[index_of_id(
                    self.entries(),
                    session_id@,
                )].transport,
                Err(e) => e is NotFound && !self.tracks(session_id@),
            },
    {
        match self.position(session_id) {
            Some(i) => {
                assert(index_of_id(self.entries(), session_id@) == i);
                Ok(&self.sessions[i].transport)
            },
            None => Err(PtyError::NotFound(String::from_str(session_id))),
        }
    }

    /// Decides what a resize of session `session_id` does. A dimension below 2
    /// is ignored, tracked or not; otherwise an untracked ID is `NotFound`, and
    /// a tmux session's window is resized along with the terminal.
    pub fn resize(&self, session_id: &str, cols: u16, rows: u16) -> (r: Result<ResizeAction, PtyError>)
        requires
            self.wf(),
        ensures
            degenerate_size(cols, rows) ==> r is Ok && r->Ok_0 is Ignore,
            !degenerate_size(cols, rows) ==> match r {
                Err(e) => e is NotFound && !self.tracks(session_id@),
                Ok(a) => self.tracks(session_id@) && match a {
                    ResizeAction::Ignore => false,
                    ResizeAction::Apply { tmux_resize } => opt_args_view(tmux_resize) == match backend_name(
                        self.entries()[index_of_id(self.entries(), session_id@)].backend,
                    ) {
                        Some(n) => Some(resize_window_args(n, cols, rows)),
                        None => None,
                    },
                },
            },
    {
        if cols < 2 || rows < 2 {
            return Ok(ResizeAction::Ignore);
        }
        match self.position(session_id) {
            None => Err(PtyError::NotFound(String::from_str(session_id))),
            Some(i) => {
                assert(index_of_id(self.entries(), session_id@) == i);
                let tmux_resize = match &self.sessions[i].backend {
                    SessionBackend::Tmux { tmux_name } => Some(
                        resize_window_command(tmux_name.as_str(), cols, rows),
                    ),
                    SessionBackend::Native => None,
                };
                Ok(ResizeAction::Apply { tmux_resize })
            },
        }
    }

    /// Records that session `session_id` now has the given size. A dimension
    /// below 2, or an untracked ID, changes nothing.
    pub fn record_size(&mut self, session_id: &str, cols: u16, rows: u16)
        requires
            old(self).wf(),
        ensures
            final(self).wf(),
            final(self).shell() == old(self).shell(),
            final(self).tmux_chosen() == old(self).tmux_chosen(),
            final(self).entries() == after_resize(old(self).entries(), session_id@, cols, rows),
    {
        if cols < 2 || rows < 2 {
            return;
        }
        match self.position(session_id) {
            None => {},
            Some(i) => {
                assert(index_of_id(old(self).entries(), session_id@) == i);
                let mut x = self.sessions.remove(i);
                x.cols = cols;
                x.rows = rows;
                self.sessions.insert(i, x);
                assert(self.entries() =~= after_resize(old(self).entries(), session_id@, cols, rows));
            },
        }
    }

    /// The size last recorded for session `session_id`, columns then rows.
    pub fn size_of(&self, session_id: &str) -> (r: Option<(u16, u16)>)
        requires
            self.wf(),
        ensures
            r == size_in(self.entries(), session_id@),
    {
        match self.position(session_id) {
            None => None,
            Some(i) => {
                assert(index_of_id(self.entries(), session_id@) == i);
                Some((self.sessions[i].cols, self.sessions[i].rows))
            },
        }
    }

    fn take_session(&mut self, session_id: &str) -> (r: Option<TerminalSession<T>>)
        requires
            old(self).wf(),
        ensures
            final(self).wf(),
            final(self).shell() == old(self).shell(),
            final(self).tmux_chosen() == old(self).tmux_chosen(),
            match r {
                None => !old(self).tracks(session_id@) && final(self).entries() == old(self).entries(),
                Some(x) => old(self).tracks(session_id@) && x == old(self).entries()[index_of_id(
                    old(self).entries(),
                    session_id@,
                )] && final(self).entries() == without(old(self).entries(), session_id@),
            },
    {
        match self.position(session_id) {
            None => None,
            Some(i) => {
                assert(index_of_id(old(self).entries(), session_id@) == i);
                let x = self.sessions.remove(i);
                assert(forall|j: int| 0 <= j < self.entries().len() ==> #[trigger] self.entries()[j]
                    == old(self).entries()[if j < i { j } else { j + 1 }]);
                Some(x)
            },
        }
    }

    /// Takes session `session_id` out to be closed for good: its local process
    /// is to be killed, a tmux session killed by name, and its exit reported.
    pub fn close(&mut self, session_id: &str) -> (r: Result<Teardown<T>, PtyError>)
        requires
            old(self).wf(),
        ensures
            final(self).wf(),
            final(self).shell() == old(self).shell(),
            final(self).tmux_chosen() == old(self).tmux_chosen(),
            match r {
                Err(e) => e is NotFound && !old(self).tracks(session_id@) && final(self).entries()
                    == old(self).entries(),
                Ok(t) => old(self).tracks(session_id@) && teardown_ok(
                    t,
                    old(self).entries()[index_of_id(old(self).entries(), session_id@)],
                    true,
                    true,
                ) && final(self).entries() == without(old(self).entries(), session_id@),
            },
    {
        match self.take_session(session_id) {
            None => Err(PtyError::NotFound(String::from_str(session_id))),
            Some(x) => Ok(teardown_of(x, true, true)),
        }
    }

    /// Takes session `session_id` out, keeping its tmux session alive: only the
    /// local client is to be killed. A native session has nothing to keep, so
    /// for it this is the same as `close`.
    pub fn detach_session(&mut self, session_id: &str) -> (r: Result<Teardown<T>, PtyError>)
        requires
            old(self).wf(),
        ensures
            final(self).wf(),
            final(self).shell() == old(self).shell(),
            final(self).tmux_chosen() == old(self).tmux_chosen(),
            match r {
                Err(e) => e is NotFound && !old(self).tracks(session_id@) && final(self).entries()
                    == old(self).entries(),
                Ok(t) => old(self).tracks(session_id@) && {
                    let x = old(self).entries()[index_of_id(old(self).entries(), session_id@)];
                    teardown_ok(t, x, false, x.backend is Native)
                } && final(self).entries() == without(old(self).entries(), session_id@),
            },
    {
        match self.take_session(session_id) {
            None => Err(PtyError::NotFound(String::from_str(session_id))),
            Some(x) => {
                let native = match &x.backend {
                    SessionBackend::Native => true,
                    SessionBackend::Tmux { .. } => false,
                };
                Ok(teardown_of(x, false, native))
            },
        }
    }

    /// Takes every session out at shutdown, in creation order. Each local
    /// process is to be killed; no tmux session is killed, so tmux-backed
    /// sessions can be reattached on the next launch.
    pub fn close_all(&mut self) -> (r: Vec<Teardown<T>>)
        requires
            old(self).wf(),
        ensures
            final(self).wf(),
            final(self).entries().len() == 0,
            final(self).shell() == old(self).shell(),
            final(self).tmux_chosen() == old(self).tmux_chosen(),
            r@.len() == old(self).entries().len(),
            forall|i: int|
                0 <= i < r@.len() ==> teardown_ok(#[trigger] r@[i], old(self).entries()[i], false, false),
    {
        let mut out: Vec<Teardown<T>> = Vec::new();
        let ghost all = self.sessions@;
        while self.sessions.len() > 0
            invariant
                out@.len() + self.sessions@.len() == all.len(),
                self.sessions@ == all.subrange(out@.len() as int, all.len() as int),
                forall|i: int| 0 <= i < out@.len() ==> teardown_ok(#[trigger] out@[i], all[i], false, false),
                self.default_shell == old(self).default_shell,
                self.tmux_available == old(self).tmux_available,
                self.use_tmux == old(self).use_tmux,
            decreases self.sessions@.len(),
        {
            let x = self.sessions.remove(0);
            assert(x == all[out@.len() as int]);
            out.push(teardown_of(x, false, false));
            assert(self.sessions@ =~= all.subrange(out@.len() as int, all.len() as int));
        }
        out
    }

    /// The IDs of the tracked sessions, in creation order.
    pub fn list_sessions(&self) -> (r: Vec<String>)
        ensures
            views(r@) == session_ids(self.entries()),
    {
        let mut out: Vec<String> = Vec::new();
        let mut i: usize = 0;
        while i < self.sessions.len()
            invariant
                i <= self.sessions@.len(),
                views(out@) == session_ids(self.sessions@.subrange(0, i as int)),
            decreases self.sessions@.len() - i,
        {
            out.push(self.sessions[i].id.clone());
            assert(session_ids(self.sessions@.subrange(0, i + 1)) =~= session_ids(
                self.sessions@.subrange(0, i as int),
            ).push(self.sessions@[i as int].id@));
            assert(views(out@) =~= session_ids(self.sessions@.subrange(0, i as int)).push(
                self.sessions@[i as int].id@,
            ));
            i = i + 1;
        }
        assert(self.sessions@.subrange(0, self.sessions@.len() as int) =~= self.sessions@);
        out
    }

    /// How to find out whether session `session_id` is alive. A tmux-backed
    /// session is asked of tmux, since its tmux session may have been killed
    /// outside this application.
    pub fn activity_check(&self, session_id: &str) -> (r: ActivityCheck)
        requires
            self.wf(),
        ensures
            !self.tracks(session_id@) <==> r is Untracked,
            self.tracks(session_id@) ==> match backend_name(
                self.entries()[index_of_id(self.entries(), session_id@)].backend,
            ) {
                Some(n) => r is External && views(r->External_0@) == target_args("has-session"@, n),
                None => r is Local,
            },
    {
        match self.position(session_id) {
            None => ActivityCheck::Untracked,
            Some(i) => {
                assert(index_of_id(self.entries(), session_id@) == i);
                match &self.sessions[i].backend {
                    SessionBackend::Tmux { tmux_name } => ActivityCheck::External(
                        target_command("has-session", tmux_name.as_str()),
                    ),
                    SessionBackend::Native => ActivityCheck::Local,
                }
            },
        }
    }

    /// Listing information about session `session_id`.
    pub fn get_session_info(&self, session_id: &str) -> (r: Option<SessionInfo>)
        requires
            self.wf(),
        ensures
            r is None <==> !self.tracks(session_id@),
            r matches Some(info) ==> {
                let x = self.entries()[index_of_id(self.entries(), session_id@)];
                &&& info.session_id@ == session_id@
                &&& info.working_directory@ == x.working_directory@
                &&& info.created_at@ == x.created_at@
            },
    {
        match self.position(session_id) {
            None => None,
            Some(i) => {
                assert(index_of_id(self.entries(), session_id@) == i);
                let x = &self.sessions[i];
                Some(
                    SessionInfo {
                        session_id: String::from_str(session_id),
                        working_directory: x.working_directory.clone(),
                        created_at: x.created_at.clone(),
                    },
                )
            },
        }
    }

    /// The tmux name of session `session_id`, if it is tmux-backed.
    pub fn get_tmux_name(&self, session_id: &str) -> (r: Option<String>)
        requires
            self.wf(),
        ensures
            opt_string_view(r) == if self.tracks(session_id@) {
                backend_name(self.entries()[index_of_id(self.entries(), session_id@)].backend)
            } else {
                None
            },
    {
        match self.position(session_id) {
            None => None,
            Some(i) => {
                assert(index_of_id(self.entries(), session_id@) == i);
                match self.sessions[i].tmux_name() {
                    Some(n) => Some(String::from_str(n)),
                    None => None,
                }
            },
        }
    }

    fn position(&self, id: &str) -> (r: Option<usize>)
        ensures
            match r {
                Some(i) => i < self.entries().len() && self.entries()[i as int].id@ == id@,
                None => !self.tracks(id@),
            },
    {
        let mut i: usize = 0;
        while i < self.sessions.len()
            invariant
                i <= self.sessions@.len(),
                forall|j: int| 0 <= j < i ==> self.sessions@[j].id@ != id@,
            decreases self.sessions@.len() - i,
        {
            if chars_equal(self.sessions[i].id.as_str(), id) {
                return Some(i);
            }
            i = i + 1;
        }
        None
    }

    /// Whether a session other than `id` is backed by the tmux session `name`.
    fn name_taken(&self, name: &str, id: &str) -> (r: bool)
        ensures
            r == name_used_by_other(self.entries(), name@, id@),
    {
        let mut i: usize = 0;
        while i < self.sessions.len()
            invariant
                i <= self.sessions@.len(),
                forall|j: int|
                    0 <= j < i ==> !(backend_name(self.sessions@[j].backend) == Some(name@)
                        && self.sessions@[j].id@ != id@),
            decreases self.sessions@.len() - i,
        {
            let s = &self.sessions[i];
            match &s.backend {
                SessionBackend::Tmux { tmux_name } => {
                    if chars_equal(tmux_name.as_str(), name) && !chars_equal(s.id.as_str(), id) {
                        return true;
                    }
                },
                SessionBackend::Native => {},
            }
            i = i + 1;
        }
        false
    }
}

/// Once a session is tracked, creating or registering another session with
/// its ID is refused, whatever backend is asked for.
pub proof fn lemma_registered_id_conflicts<T>(
    s: Seq<TerminalSession<T>>,
    x: TerminalSession<T>,
    tmux: bool,
    backend: SessionBackend,
)
    ensures
        create_conflict(s.push(x), tmux, x.id@),
        register_conflict(s.push(x), x.id@, backend),
{
    assert(s.push(x)[s.len() as int] == x);
}

/// A closed (or detached) session is no longer tracked, so it is not active,
/// and what remains is still well formed.
pub proof fn lemma_closed_session_untracked<T>(s: Seq<TerminalSession<T>>, id: Seq<char>)
    requires
        sessions_wf(s),
        tracks(s, id),
    ensures
        !tracks(without(s, id), id),
        sessions_wf(without(s, id)),
{
    let k = index_of_id(s, id);
    let w = without(s, id);
    assert forall|j: int| 0 <= j < w.len() implies #[trigger] w[j] == s[if j < k { j } else { j + 1 }] by {}
    if tracks(w, id) {
        let j = choose|j: int| 0 <= j < w.len() && w[j].id@ == id;
        assert(w[j] == s[if j < k { j } else { j + 1 }]);
    }
}

/// After a tmux-backed session was detached, no tracked session holds its
/// tmux session, so reattaching the same ID to it is not refused.
pub proof fn lemma_detached_session_reattachable<T>(s: Seq<TerminalSession<T>>, id: Seq<char>)
    requires
        sessions_wf(s),
        tracks(s, id),
        backend_name(s[index_of_id(s, id)].backend) is Some,
    ensures
        !name_used_by_other(
            without(s, id),
            backend_name(s[index_of_id(s, id)].backend)->0,
            id,
        ),
        !tracks(without(s, id), id),
{
    lemma_closed_session_untracked(s, id);
    let k = index_of_id(s, id);
    let n = backend_name(s[k].backend)->0;
    let w = without(s, id);
    assert forall|j: int| 0 <= j < w.len() implies #[trigger] w[j] == s[if j < k { j } else { j + 1 }] by {}
    if name_used_by_other(w, n, id) {
        let j = choose|j: int| 0 <= j < w.len() && backend_name(w[j].backend) == Some(n) && w[j].id@ != id;
        assert(w[j] == s[if j < k { j } else { j + 1 }]);
    }
}

/// A resize with a dimension below 2 leaves the recorded size as the last
/// valid resize set it.
pub proof fn lemma_degenerate_resize_keeps_size<T>(
    s: Seq<TerminalSession<T>>,
    id: Seq<char>,
    cols: u16,
    rows: u16,
    bad_cols: u16,
    bad_rows: u16,
)
    requires
        sessions_wf(s),
        tracks(s, id),
        !degenerate_size(cols, rows),
        degenerate_size(bad_cols, bad_rows),
    ensures
        size_in(after_resize(s, id, cols, rows), id) == Some((cols, rows)),
        size_in(after_resize(after_resize(s, id, cols, rows), id, bad_cols, bad_rows), id) == Some(
            (cols, rows),
        ),
{
    let k = index_of_id(s, id);
    let s1 = after_resize(s, id, cols, rows);
    assert(s1[k].id@ == id);
    assert(tracks(s1, id));
    let k1 = index_of_id(s1, id);
    assert(s1[k1].id@ == id);
    if k1 != k {
        assert(s1[k1] == s[k1]);
    }
}

/// At shutdown every session is taken out and no tmux session is ended: a
/// native session is gone with its killed process, while a tmux-backed one
/// survives for reattachment.
pub proof fn lemma_close_all_outcome<T>(ts: Seq<Teardown<T>>, s: Seq<TerminalSession<T>>, id: Seq<char>)
    requires
        ts.len() == s.len(),
        forall|i: int| 0 <= i < ts.len() ==> teardown_ok(#[trigger] ts[i], s[i], false, false),
    ensures
        !tracks(Seq::<TerminalSession<T>>::empty(), id),
        forall|i: int| 0 <= i < ts.len() ==> (#[trigger] ts[i]).kill_external is None,
        forall|i: int| 0 <= i < ts.len() ==> (#[trigger] ts[i]).transport == s[i].transport,
{
    assert forall|i: int| 0 <= i < ts.len() implies (#[trigger] ts[i]).kill_external is None by {
        assert(teardown_ok(ts[i], s[i], false, false));
    }
}

} // verus!
