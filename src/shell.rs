//! How sessions invoke the user's shell: rc-file-free flags, the managed
//! environment, the prompt, and the process a session's terminal runs.
use vstd::prelude::*;
use vstd::string::*;
use crate::text::{ends_with, has_suffix, opt_view, views};

verus! {

/// The shell families whose rc-file loading is switched off by explicit flags.
#[derive(Clone, Copy, PartialEq, Eq, Debug)]
pub enum ShellFamily {
    Zsh,
    Bash,
    Other,
}

pub open spec fn family_of(shell: Seq<char>) -> ShellFamily {
    if has_suffix(shell, "zsh"@) {
        ShellFamily::Zsh
    } else if has_suffix(shell, "bash"@) {
        ShellFamily::Bash
    } else {
        ShellFamily::Other
    }
}

/// The flags that stop a shell of the family from reading its rc and profile files.
pub open spec fn no_rc_flags(f: ShellFamily) -> Seq<Seq<char>> {
    match f {
        ShellFamily::Zsh => seq!["--no-rcs"@],
        ShellFamily::Bash => seq!["--norc"@, "--noprofile"@],
        ShellFamily::Other => seq![],
    }
}

/// The environment every spawned session process receives.
pub open spec fn managed_env() -> Seq<(Seq<char>, Seq<char>)> {
    seq![("TERM"@, "xterm-256color"@), ("COLORTERM"@, "truecolor"@), ("CONTROL_TOWER"@, "1"@)]
}

/// The prompt of an interactive session, showing `label`.
pub open spec fn prompt(f: ShellFamily, label: Seq<char>) -> Seq<char> {
    match f {
        ShellFamily::Zsh => "%F{cyan}"@ + label + "%f %F{blue}$%f "@,
        _ => "\\[\\033[36m\\]"@ + label + "\\[\\033[0m\\] \\[\\033[34m\\]$\\[\\033[0m\\] "@,
    }
}

/// The shell started with its rc-file flags, as one shell word list.
pub open spec fn shell_invocation(shell: Seq<char>, f: ShellFamily) -> Seq<char> {
    match f {
        ShellFamily::Zsh => shell + " --no-rcs"@,
        ShellFamily::Bash => shell + " --norc --noprofile"@,
        ShellFamily::Other => shell,
    }
}

/// The label shown in the prompt: the last component of the working directory,
/// or the whole directory when it has none.
pub open spec fn dir_label_of(working_dir: Seq<char>) -> Seq<char> {
    match path_file_name(working_dir) {
        Some(n) => n,
        None => working_dir,
    }
}

/// The last component of a path, as `std::path::Path::file_name` gives it.
pub uninterp spec fn path_file_name(p: Seq<char>) -> Option<Seq<char>>;

/// A process to start on the slave side of a pseudo-terminal.
pub struct CommandSpec {
    pub program: String,
    pub args: Vec<String>,
    pub cwd: String,
    pub env: Vec<(String, String)>,
}

pub open spec fn env_views(v: Seq<(String, String)>) -> Seq<(Seq<char>, Seq<char>)> {
    v.map_values(|p: (String, String)| (p.0@, p.1@))
}

/// The arguments of a directly spawned shell.
pub open spec fn native_args(f: ShellFamily, command: Option<Seq<char>>) -> Seq<Seq<char>> {
    match command {
        Some(c) => no_rc_flags(f) + seq!["-c"@, c],
        None => no_rc_flags(f),
    }
}

/// The environment of a directly spawned shell.
pub open spec fn native_env(f: ShellFamily, command: Option<Seq<char>>, label: Seq<char>) -> Seq<(Seq<char>, Seq<char>)> {
    match command {
        Some(_) => managed_env(),
        None => managed_env().push(("PS1"@, prompt(f, label))),
    }
}

/// Relies on `std::path::Path::file_name`, which for a `&str` path always
/// yields valid UTF-8 when it yields a name.
#[verifier::external_body]
fn file_name(p: &str) -> (r: Option<String>)
    ensures
        match r {
            Some(n) => path_file_name(p@) == Some(n@),
            None => path_file_name(p@) is None,
        },
{
    std::path::Path::new(p).file_name().and_then(|n| n.to_str()).map(|n| n.to_string())
}

/// The prompt label of a working directory.
pub fn dir_label(working_dir: &str) -> (r: String)
    ensures
        r@ == dir_label_of(working_dir@),
{
    match file_name(working_dir) {
        Some(n) => n,
        None => String::from_str(working_dir),
    }
}

/// The family of a shell path, decided by its name's ending.
pub fn shell_family(shell: &str) -> (r: ShellFamily)
    ensures
        r == family_of(shell@),
{
    if ends_with(shell, "zsh") {
        ShellFamily::Zsh
    } else if ends_with(shell, "bash") {
        ShellFamily::Bash
    } else {
        ShellFamily::Other
    }
}

fn str_of(s: &str) -> (r: String)
    ensures
        r@ == s@,
{
    String::from_str(s)
}

pub fn no_rc_args(f: ShellFamily) -> (r: Vec<String>)
    ensures
        views(r@) == no_rc_flags(f),
{
    let r = match f {
        ShellFamily::Zsh => vec![str_of("--no-rcs")],
        ShellFamily::Bash => vec![str_of("--norc"), str_of("--noprofile")],
        ShellFamily::Other => Vec::new(),
    };
    assert(views(r@) =~= no_rc_flags(f));
    r
}

pub fn managed_env_vars() -> (r: Vec<(String, String)>)
    ensures
        env_views(r@) == managed_env(),
{
    let r = vec![
        (str_of("TERM"), str_of("xterm-256color")),
        (str_of("COLORTERM"), str_of("truecolor")),
        (str_of("CONTROL_TOWER"), str_of("1")),
    ];
    assert(env_views(r@) =~= managed_env());
    r
}

/// The prompt for an interactive session whose directory label is `label`.
pub fn prompt_for(f: ShellFamily, label: &str) -> (r: String)
    ensures
        r@ == prompt(f, label@),
{
    match f {
        ShellFamily::Zsh => {
            let mut s = str_of("%F{cyan}");
            s.append(label);
            s.append("%f %F{blue}$%f ");
            s
        },
        _ => {
            let mut s = str_of("\\[\\033[36m\\]");
            s.append(label);
            s.append("\\[\\033[0m\\] \\[\\033[34m\\]$\\[\\033[0m\\] ");
            s
        },
    }
}

pub fn shell_invocation_string(shell: &str, f: ShellFamily) -> (r: String)
    ensures
        r@ == shell_invocation(shell@, f),
{
    let mut s = str_of(shell);
    match f {
        ShellFamily::Zsh => s.append(" --no-rcs"),
        ShellFamily::Bash => s.append(" --norc --noprofile"),
        ShellFamily::Other => {},
    }
    s
}

/// The process of a directly backed session: the shell itself, with its
/// rc-file flags, running `command` when one is given.
pub fn native_command(shell: &str, working_dir: &str, command: Option<&str>) -> (r: CommandSpec)
    ensures
        r.program@ == shell@,
        r.cwd@ == working_dir@,
        views(r.args@) == native_args(family_of(shell@), opt_view(command)),
        env_views(r.env@) == native_env(
            family_of(shell@),
            opt_view(command),
            dir_label_of(working_dir@),
        ),
{
    let f = shell_family(shell);
    let mut args = no_rc_args(f);
    let mut env = managed_env_vars();
    match command {
        Some(c) => {
            args.push(str_of("-c"));
            args.push(str_of(c));
            assert(views(args@) =~= native_args(f, opt_view(command)));
            assert(env_views(env@) =~= native_env(f, opt_view(command), dir_label_of(working_dir@)));
        },
        None => {
            let label = dir_label(working_dir);
            env.push((str_of("PS1"), prompt_for(f, label.as_str())));
            assert(views(args@) =~= native_args(f, opt_view(command)));
            assert(env_views(env@) =~= native_env(f, opt_view(command), dir_label_of(working_dir@)));
        },
    }
    CommandSpec { program: str_of(shell), args, cwd: str_of(working_dir), env }
}

} // verus!
