//! The tmux side of persistent sessions: external session names, the control
//! commands sent to tmux, the parsing of its session listing and the choice
//! of orphaned sessions to reclaim.
use vstd::prelude::*;
use vstd::string::*;
use crate::shell::{prompt, prompt_for, shell_invocation, shell_invocation_string, ShellFamily};
use crate::text::{
    chars_equal, decimal, decimal_string, escape_quotes, escape_single_quotes, has_prefix,
    opt_string_view, opt_view, prefix_chars, starts_with, take_chars, views,
};

verus! {

/// Number of session-ID characters kept in an external session name.
pub const NAME_ID_CHARS: usize = 8;

/// The namespace prefix of every tmux session this application creates.
pub open spec fn namespace() -> Seq<char> {
    "ct-"@
}

/// The external tmux name of a session: the namespace prefix followed by
/// the first characters of the session ID.
pub open spec fn tmux_name_of(session_id: Seq<char>) -> Seq<char> {
    namespace() + take_chars(session_id, NAME_ID_CHARS as nat)
}

/// Information about a tmux session of this application's namespace.
#[derive(Clone, Debug)]
pub struct TmuxSessionInfo {
    pub name: String,
    pub working_directory: String,
    pub created_at: String,
}

impl TmuxSessionInfo {
    pub open spec fn view_fields(&self) -> (Seq<char>, Seq<char>, Seq<char>) {
        (self.name@, self.working_directory@, self.created_at@)
    }
}

pub open spec fn info_views(v: Seq<TmuxSessionInfo>) -> Seq<(Seq<char>, Seq<char>, Seq<char>)> {
    v.map_values(|i: TmuxSessionInfo| i.view_fields())
}

pub open spec fn info_names(v: Seq<TmuxSessionInfo>) -> Seq<Seq<char>> {
    v.map_values(|i: TmuxSessionInfo| i.name@)
}

/// The index of the first `c` in `s` at or after `i`, or `s.len()` when there is none.
pub open spec fn index_of_from(s: Seq<char>, c: char, i: int) -> int
    decreases s.len() - i,
{
    if i < 0 || i >= s.len() {
        s.len() as int
    } else if s[i] == c {
        i
    } else {
        index_of_from(s, c, i + 1)
    }
}

/// `s` split at its first `sep`: the part before it, and the part after it when there is one.
pub open spec fn split_first(s: Seq<char>, sep: char) -> (Seq<char>, Option<Seq<char>>) {
    let k = index_of_from(s, sep, 0);
    if 0 <= k < s.len() {
        (s.subrange(0, k), Some(s.subrange(k + 1, s.len() as int)))
    } else {
        (s, None)
    }
}

/// A listing line cut into at most three tab-separated fields: name, path and
/// creation time; a missing field is empty, and the last keeps any further tabs.
pub open spec fn record_of_line(line: Seq<char>) -> (Seq<char>, Seq<char>, Seq<char>) {
    let (name, rest) = split_first(line, '\t');
    match rest {
        None => (name, Seq::empty(), Seq::empty()),
        Some(r) => {
            let (wd, rest2) = split_first(r, '\t');
            match rest2 {
                None => (name, wd, Seq::empty()),
                Some(c) => (name, wd, c),
            }
        },
    }
}

pub open spec fn strip_cr(line: Seq<char>) -> Seq<char> {
    if line.len() > 0 && line.last() == '\r' {
        line.drop_last()
    } else {
        line
    }
}

/// The records of a line, if it names a session of this application's namespace.
pub open spec fn records_of_line(line: Seq<char>) -> Seq<(Seq<char>, Seq<char>, Seq<char>)> {
    if has_prefix(record_of_line(line).0, namespace()) {
        seq![record_of_line(line)]
    } else {
        seq![]
    }
}

/// The namespaced sessions of a `list-sessions` output, line by line; a line
/// ends at `\n` (or `\r\n`), and the last line need not be terminated.
pub open spec fn listing_records(s: Seq<char>) -> Seq<(Seq<char>, Seq<char>, Seq<char>)>
    decreases s.len(),
{
    if s.len() == 0 {
        seq![]
    } else {
        let k = index_of_from(s, '\n', 0);
        if 0 <= k < s.len() {
            records_of_line(strip_cr(s.subrange(0, k))) + listing_records(
                s.subrange(k + 1, s.len() as int),
            )
        } else {
            records_of_line(s)
        }
    }
}

/// The live names that are not among the known names, in listing order.
pub open spec fn orphans(known: Seq<Seq<char>>, live: Seq<Seq<char>>) -> Seq<Seq<char>>
    decreases live.len(),
{
    if live.len() == 0 {
        seq![]
    } else if known.contains(live.last()) {
        orphans(known, live.drop_last())
    } else {
        orphans(known, live.drop_last()).push(live.last())
    }
}

/// The orphan sweep kills exactly the live sessions whose names are not
/// known, and leaves every known one alone.
pub proof fn lemma_orphans_exact(known: Seq<Seq<char>>, live: Seq<Seq<char>>)
    ensures
        forall|n: Seq<char>| #[trigger] orphans(known, live).contains(n) <==> (live.contains(n) && !known.contains(n)),
    decreases live.len(),
{
    if live.len() > 0 {
        let init = live.drop_last();
        lemma_orphans_exact(known, init);
        assert forall|n: Seq<char>| #[trigger] live.contains(n) <==> (init.contains(n) || n == live.last()) by {
            if live.contains(n) {
                let i = choose|i: int| 0 <= i < live.len() && live[i] == n;
                if i < live.len() - 1 {
                    assert(init[i] == n);
                }
            }
            if init.contains(n) {
                let i = choose|i: int| 0 <= i < init.len() && init[i] == n;
                assert(live[i] == n);
            }
            if n == live.last() {
                assert(live[live.len() - 1] == n);
            }
        }
        let o = orphans(known, init);
        assert forall|n: Seq<char>| #[trigger] o.push(live.last()).contains(n) <==> (o.contains(n) || n == live.last()) by {
            if o.push(live.last()).contains(n) {
                let i = choose|i: int| 0 <= i < o.len() + 1 && o.push(live.last())[i] == n;
                if i < o.len() {
                    assert(o[i] == n);
                }
            }
            if o.contains(n) {
                let i = choose|i: int| 0 <= i < o.len() && o[i] == n;
                assert(o.push(live.last())[i] == n);
            }
            if n == live.last() {
                assert(o.push(live.last())[o.len() as int] == n);
            }
        }
    }
}

/// The shell command a new tmux session runs: a one-shot command through the
/// rc-free shell, or the rc-free interactive shell with the managed environment
/// and, for zsh and bash, the prompt.
pub open spec fn tmux_shell_command(
    shell: Seq<char>,
    f: ShellFamily,
    command: Option<Seq<char>>,
    label: Seq<char>,
) -> Seq<char> {
    match command {
        Some(c) => shell_invocation(shell, f) + " -c '"@ + escape_quotes(c) + "'"@,
        None => "/usr/bin/env TERM=xterm-256color COLORTERM=truecolor CONTROL_TOWER=1 "@ + match f {
            ShellFamily::Other => Seq::<char>::empty(),
            _ => "PS1='"@ + prompt(f, escape_quotes(label)) + "' "@,
        } + shell_invocation(shell, f),
    }
}

pub open spec fn new_session_args(
    name: Seq<char>,
    working_dir: Seq<char>,
    cols: u16,
    rows: u16,
    shell_command: Seq<char>,
) -> Seq<Seq<char>> {
    seq![
        "new-session"@,
        "-d"@,
        "-s"@,
        name,
        "-c"@,
        working_dir,
        "-x"@,
        decimal(cols as nat),
        "-y"@,
        decimal(rows as nat),
        shell_command,
    ]
}

/// The options set on a new tmux session: no status bar, mouse reporting, a
/// long history and, for interactive sessions, the rc-free shell for new panes.
pub open spec fn configure_args(name: Seq<char>, default_command: Option<Seq<char>>) -> Seq<Seq<Seq<char>>> {
    let base = seq![
        seq!["set-option"@, "-t"@, name, "status"@, "off"@],
        seq!["set-option"@, "-t"@, name, "-g"@, "mouse"@, "on"@],
        seq!["set-option"@, "-t"@, name, "history-limit"@, "50000"@],
    ];
    match default_command {
        Some(d) => base.push(seq!["set-option"@, "-t"@, name, "default-command"@, d]),
        None => base,
    }
}

pub open spec fn target_args(verb: Seq<char>, name: Seq<char>) -> Seq<Seq<char>> {
    seq![verb, "-t"@, name]
}

pub open spec fn resize_window_args(name: Seq<char>, cols: u16, rows: u16) -> Seq<Seq<char>> {
    seq!["resize-window"@, "-t"@, name, "-x"@, decimal(cols as nat), "-y"@, decimal(rows as nat)]
}

fn str_of(s: &str) -> (r: String)
    ensures
        r@ == s@,
{
    String::from_str(s)
}

/// The external name for a session ID.
pub fn tmux_name_for(session_id: &str) -> (r: String)
    ensures
        r@ == tmux_name_of(session_id@),
{
    let mut r = str_of("ct-");
    let p = prefix_chars(session_id, NAME_ID_CHARS);
    r.append(p.as_str());
    r
}

/// The shell command for a new tmux session (see `tmux_shell_command`).
pub fn tmux_shell_command_string(
    shell: &str,
    f: ShellFamily,
    command: Option<&str>,
    label: &str,
) -> (r: String)
    ensures
        r@ == tmux_shell_command(shell@, f, opt_view(command), label@),
{
    let inv = shell_invocation_string(shell, f);
    match command {
        Some(c) => {
            let mut s = inv;
            s.append(" -c '");
            let e = escape_single_quotes(c);
            s.append(e.as_str());
            s.append("'");
            s
        },
        None => {
            let mut s = str_of("/usr/bin/env TERM=xterm-256color COLORTERM=truecolor CONTROL_TOWER=1 ");
            match f {
                ShellFamily::Other => {},
                _ => {
                    s.append("PS1='");
                    let e = escape_single_quotes(label);
                    let p = prompt_for(f, e.as_str());
                    s.append(p.as_str());
                    s.append("' ");
                },
            }
            s.append(inv.as_str());
            s
        },
    }
}

/// Arguments of `tmux new-session` creating a detached session.
pub fn new_session_command(
    name: &str,
    working_dir: &str,
    cols: u16,
    rows: u16,
    shell_command: String,
) -> (r: Vec<String>)
    ensures
        views(r@) == new_session_args(name@, working_dir@, cols, rows, shell_command@),
{
    let r = vec![
        str_of("new-session"),
        str_of("-d"),
        str_of("-s"),
        str_of(name),
        str_of("-c"),
        str_of(working_dir),
        str_of("-x"),
        decimal_string(cols),
        str_of("-y"),
        decimal_string(rows),
        shell_command,
    ];
    assert(views(r@) =~= new_session_args(name@, working_dir@, cols, rows, shell_command@));
    r
}

/// The `set-option` commands configuring a new tmux session.
pub fn configure_commands(name: &str, default_command: Option<String>) -> (r: Vec<Vec<String>>)
    ensures
        r@.map_values(|v: Vec<String>| views(v@)) == configure_args(
            name@,
            opt_string_view(default_command),
        ),
{
    let a = vec![str_of("set-option"), str_of("-t"), str_of(name), str_of("status"), str_of("off")];
    let b = vec![
        str_of("set-option"),
        str_of("-t"),
        str_of(name),
        str_of("-g"),
        str_of("mouse"),
        str_of("on"),
    ];
    let c = vec![
        str_of("set-option"),
        str_of("-t"),
        str_of(name),
        str_of("history-limit"),
        str_of("50000"),
    ];
    assert(views(a@) =~= seq!["set-option"@, "-t"@, name@, "status"@, "off"@]);
    assert(views(b@) =~= seq!["set-option"@, "-t"@, name@, "-g"@, "mouse"@, "on"@]);
    assert(views(c@) =~= seq!["set-option"@, "-t"@, name@, "history-limit"@, "50000"@]);
    let mut r = vec![a, b, c];
    let ghost dv = opt_string_view(default_command);
    match default_command {
        Some(d) => {
            let e = vec![str_of("set-option"), str_of("-t"), str_of(name), str_of("default-command"), d];
            assert(views(e@) =~= seq!["set-option"@, "-t"@, name@, "default-command"@, dv->0]);
            r.push(e);
        },
        None => {},
    }
    assert(r@.map_values(|v: Vec<String>| views(v@)) =~= configure_args(name@, dv));
    r
}

/// A tmux command addressing one session: `<verb> -t <name>`.
pub fn target_command(verb: &str, name: &str) -> (r: Vec<String>)
    ensures
        views(r@) == target_args(verb@, name@),
{
    let r = vec![str_of(verb), str_of("-t"), str_of(name)];
    assert(views(r@) =~= target_args(verb@, name@));
    r
}

/// Arguments of `tmux resize-window` for a session.
pub fn resize_window_command(name: &str, cols: u16, rows: u16) -> (r: Vec<String>)
    ensures
        views(r@) == resize_window_args(name@, cols, rows),
{
    let r = vec![
        str_of("resize-window"),
        str_of("-t"),
        str_of(name),
        str_of("-x"),
        decimal_string(cols),
        str_of("-y"),
        decimal_string(rows),
    ];
    assert(views(r@) =~= resize_window_args(name@, cols, rows));
    r
}

/// Arguments of `tmux list-sessions` printing name, path and creation time,
/// tab-separated, one session per line.
pub fn list_sessions_command() -> (r: Vec<String>)
    ensures
        views(r@) == seq![
            "list-sessions"@,
            "-F"@,
            "#{session_name}\t#{session_path}\t#{session_created}"@,
        ],
{
    let r = vec![
        str_of("list-sessions"),
        str_of("-F"),
        str_of("#{session_name}\t#{session_path}\t#{session_created}"),
    ];
    assert(views(r@) =~= seq![
        "list-sessions"@,
        "-F"@,
        "#{session_name}\t#{session_path}\t#{session_created}"@,
    ]);
    r
}

/// The index of the first `c` in `s`, or its length.
fn find_char(s: &str, c: char) -> (k: usize)
    ensures
        k as int == index_of_from(s@, c, 0),
        k <= s@.len(),
{
    let n = s.unicode_len();
    let mut i: usize = 0;
    while i < n && s.get_char(i) != c
        invariant
            n == s@.len(),
            i <= n,
            index_of_from(s@, c, 0) == index_of_from(s@, c, i as int),
        decreases n - i,
    {
        i = i + 1;
    }
    i
}

fn split_first_exec(s: &str, sep: char) -> (r: (&str, Option<&str>))
    ensures
        r.0@ == split_first(s@, sep).0,
        opt_view(r.1) == split_first(s@, sep).1,
{
    let n = s.unicode_len();
    let k = find_char(s, sep);
    if k < n {
        (s.substring_char(0, k), Some(s.substring_char(k + 1, n)))
    } else {
        assert(s@.subrange(0, n as int) == s@);
        (s, None)
    }
}

fn record_from_line(line: &str) -> (r: TmuxSessionInfo)
    ensures
        r.view_fields() == record_of_line(line@),
{
    let (name, rest) = split_first_exec(line, '\t');
    match rest {
        None => TmuxSessionInfo {
            name: str_of(name),
            working_directory: String::new(),
            created_at: String::new(),
        },
        Some(r) => {
            let (wd, rest2) = split_first_exec(r, '\t');
            match rest2 {
                None => TmuxSessionInfo {
                    name: str_of(name),
                    working_directory: str_of(wd),
                    created_at: String::new(),
                },
                Some(c) => TmuxSessionInfo {
                    name: str_of(name),
                    working_directory: str_of(wd),
                    created_at: str_of(c),
                },
            }
        },
    }
}

/// The sessions of this application's namespace in the output of
/// `list_sessions_command`.
pub fn parse_session_listing(output: &str) -> (r: Vec<TmuxSessionInfo>)
    ensures
        info_views(r@) == listing_records(output@),
{
    let mut out: Vec<TmuxSessionInfo> = Vec::new();
    let mut rest: &str = output;
    let mut done = false;
    while !done
        invariant
            done ==> info_views(out@) == listing_records(output@),
            !done ==> info_views(out@) + listing_records(rest@) == listing_records(output@),
        decreases rest@.len() + if done { 0int } else { 1int },
    {
        let n = rest.unicode_len();
        if n == 0 {
            assert(info_views(out@) + listing_records(rest@) =~= info_views(out@));
            done = true;
        } else {
            let k = find_char(rest, '\n');
            let ghost before = out@;
            if k < n {
                let raw = rest.substring_char(0, k);
                let m = raw.unicode_len();
                let line = if m > 0 && raw.get_char(m - 1) == '\r' {
                    raw.substring_char(0, m - 1)
                } else {
                    raw
                };
                assert(line@ == strip_cr(raw@));
                let rec = record_from_line(line);
                if starts_with(rec.name.as_str(), "ct-") {
                    out.push(rec);
                }
                assert(info_views(out@) =~= info_views(before) + records_of_line(line@));
                let next = rest.substring_char(k + 1, n);
                assert(info_views(out@) + listing_records(next@) =~= info_views(before)
                    + listing_records(rest@));
                rest = next;
            } else {
                let rec = record_from_line(rest);
                if starts_with(rec.name.as_str(), "ct-") {
                    out.push(rec);
                }
                assert(info_views(out@) =~= info_views(before) + records_of_line(rest@));
                done = true;
            }
        }
    }
    out
}

/// Whether `name` is among `names`.
pub fn contains_name(names: &Vec<String>, name: &str) -> (r: bool)
    ensures
        r == views(names@).contains(name@),
{
    let mut i: usize = 0;
    while i < names.len()
        invariant
            i <= names@.len(),
            forall|j: int| 0 <= j < i ==> names@[j]@ != name@,
        decreases names@.len() - i,
    {
        if chars_equal(names[i].as_str(), name) {
            assert(views(names@)[i as int] == name@);
            return true;
        }
        i = i + 1;
    }
    assert forall|j: int| 0 <= j < views(names@).len() implies views(names@)[j] != name@ by {
        assert(views(names@)[j] == names@[j]@);
    }
    false
}

/// The names of the live namespaced sessions that are not among `known`:
/// the ones orphaned by an earlier run, to be killed at startup.
pub fn orphaned_sessions(known: &Vec<String>, live: &Vec<TmuxSessionInfo>) -> (r: Vec<String>)
    ensures
        views(r@) == orphans(views(known@), info_names(live@)),
{
    let mut out: Vec<String> = Vec::new();
    let mut i: usize = 0;
    while i < live.len()
        invariant
            i <= live@.len(),
            views(out@) == orphans(views(known@), info_names(live@).subrange(0, i as int)),
        decreases live@.len() - i,
    {
        let ghost before = out@;
        let name = &live[i].name;
        assert(info_names(live@).subrange(0, i + 1).drop_last() =~= info_names(live@).subrange(
            0,
            i as int,
        ));
        if !contains_name(known, name.as_str()) {
            out.push(name.clone());
            assert(views(out@) =~= views(before).push(name@));
        }
        i = i + 1;
    }
    assert(info_names(live@).subrange(0, live@.len() as int) =~= info_names(live@));
    out
}

} // verus!
