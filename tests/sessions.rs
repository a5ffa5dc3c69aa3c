use control_tower::pty::{
    select_running, ActivityCheck, PtyError, ResizeAction, SessionBackend, TerminalManager,
};
use control_tower::pump::{close_exit_code, monitor_step, reader_event, MonitorStep, PollOutcome, ReaderEvent};
use control_tower::shell::{native_command, shell_family, ShellFamily};
use control_tower::tmux::{
    list_sessions_command, orphaned_sessions, parse_session_listing, tmux_name_for,
    tmux_shell_command_string, TmuxSessionInfo,
};

fn strs(v: &[&str]) -> Vec<String> {
    v.iter().map(|s| s.to_string()).collect()
}

fn native_manager() -> TerminalManager<u32> {
    TerminalManager::new(true, "/bin/bash".to_string(), None)
}

fn tmux_manager() -> TerminalManager<u32> {
    TerminalManager::new(true, "/bin/zsh".to_string(), Some("tmux 3.4".to_string()))
}

fn add_native(m: &mut TerminalManager<u32>, id: &str, transport: u32) {
    let plan = m.create_session(id, "/home/u/proj", None, 80, 24).unwrap();
    assert!(matches!(plan.backend, SessionBackend::Native));
    m.register_session(id.to_string(), plan.backend, transport, "/home/u/proj".to_string(), 80, 24)
        .map_err(|(e, _)| e)
        .unwrap();
}

#[test]
fn it_works() {
    assert!(true);
}

#[test]
fn second_create_with_same_id_is_refused() {
    let mut m = native_manager();
    add_native(&mut m, "abc", 7);
    assert!(matches!(m.create_session("abc", "/tmp", None, 80, 24), Err(PtyError::AlreadyExists(_))));
    let again = m.register_session("abc".to_string(), SessionBackend::Native, 9, "/tmp".to_string(), 10, 10);
    match again {
        Err((PtyError::AlreadyExists(_), t)) => assert_eq!(t, 9),
        _ => panic!("duplicate registration accepted"),
    }
    assert_eq!(*m.session_transport("abc").unwrap(), 7);
    assert_eq!(m.size_of("abc"), Some((80, 24)));
    assert_eq!(m.list_sessions(), vec!["abc".to_string()]);
}

#[test]
fn tmux_sessions_with_same_name_prefix_are_refused() {
    let mut m = tmux_manager();
    let plan = m.create_session("12345678-aaaa", "/w", None, 80, 24).unwrap();
    assert_eq!(m.get_tmux_name("12345678-aaaa"), None);
    m.register_session("12345678-aaaa".to_string(), plan.backend, 1, "/w".to_string(), 80, 24)
        .map_err(|(e, _)| e)
        .unwrap();
    assert_eq!(m.get_tmux_name("12345678-aaaa"), Some("ct-12345678".to_string()));
    assert!(matches!(
        m.create_session("12345678-bbbb", "/w", None, 80, 24),
        Err(PtyError::AlreadyExists(_))
    ));
}

#[test]
fn close_untracks_the_session() {
    let mut m = native_manager();
    add_native(&mut m, "s1", 3);
    assert!(matches!(m.activity_check("s1"), ActivityCheck::Local));
    let t = m.close("s1").unwrap();
    assert_eq!(t.session_id, "s1");
    assert_eq!(t.transport, 3);
    assert!(t.kill_external.is_none());
    assert!(t.report_exit);
    assert!(matches!(m.activity_check("s1"), ActivityCheck::Untracked));
    assert!(matches!(m.close("s1"), Err(PtyError::NotFound(_))));
    assert!(m.get_session_info("s1").is_none());
}

#[test]
fn close_exit_code_depends_on_the_process() {
    assert_eq!(close_exit_code(true, Some(3)), None);
    assert_eq!(close_exit_code(false, Some(3)), Some(3));
    assert_eq!(close_exit_code(false, None), None);
    assert_eq!(close_exit_code(false, Some(u32::MAX)), Some(-1));
}

#[test]
fn closing_a_tmux_session_kills_it_but_detaching_does_not() {
    let mut m = tmux_manager();
    let plan = m.create_session("abcdefghij", "/w", None, 80, 24).unwrap();
    m.register_session("abcdefghij".to_string(), plan.backend, 5, "/w".to_string(), 80, 24)
        .map_err(|(e, _)| e)
        .unwrap();
    let d = m.detach_session("abcdefghij").unwrap();
    assert!(d.kill_external.is_none());
    assert!(!d.report_exit);
    // Reattach the same ID to the surviving tmux session.
    let a = m.attach_session("abcdefghij", "ct-abcdefgh", "/w", 100, 30).unwrap();
    assert_eq!(a.probe, strs(&["has-session", "-t", "ct-abcdefgh"]));
    assert_eq!(a.resize, strs(&["resize-window", "-t", "ct-abcdefgh", "-x", "100", "-y", "30"]));
    assert_eq!(a.spawn.program, "tmux");
    assert_eq!(a.spawn.args, strs(&["attach-session", "-t", "ct-abcdefgh"]));
    let prev = m
        .replace_session("abcdefghij".to_string(), "ct-abcdefgh".to_string(), 6, "/w".to_string(), 100, 30)
        .map_err(|(e, _)| e)
        .unwrap();
    assert_eq!(prev, None);
    let prev = m
        .replace_session("abcdefghij".to_string(), "ct-abcdefgh".to_string(), 8, "/w".to_string(), 100, 30)
        .map_err(|(e, _)| e)
        .unwrap();
    assert_eq!(prev, Some(6));
    assert_eq!(*m.session_transport("abcdefghij").unwrap(), 8);
    let c = m.close("abcdefghij").unwrap();
    assert_eq!(c.kill_external, Some(strs(&["kill-session", "-t", "ct-abcdefgh"])));
}

#[test]
fn detaching_a_native_session_is_closing_it() {
    let mut m = native_manager();
    add_native(&mut m, "n", 1);
    let d = m.detach_session("n").unwrap();
    assert!(d.report_exit);
    assert!(d.kill_external.is_none());
    assert!(matches!(m.detach_session("n"), Err(PtyError::NotFound(_))));
}

#[test]
fn degenerate_resizes_are_ignored() {
    let mut m = tmux_manager();
    let plan = m.create_session("geometry-1", "/w", None, 80, 24).unwrap();
    m.register_session("geometry-1".to_string(), plan.backend, 1, "/w".to_string(), 80, 24)
        .map_err(|(e, _)| e)
        .unwrap();
    match m.resize("geometry-1", 120, 40).unwrap() {
        ResizeAction::Apply { tmux_resize } => assert_eq!(
            tmux_resize,
            Some(strs(&["resize-window", "-t", "ct-geometry", "-x", "120", "-y", "40"]))
        ),
        ResizeAction::Ignore => panic!("valid resize ignored"),
    }
    m.record_size("geometry-1", 120, 40);
    assert!(matches!(m.resize("geometry-1", 1, 40), Ok(ResizeAction::Ignore)));
    assert!(matches!(m.resize("geometry-1", 40, 1), Ok(ResizeAction::Ignore)));
    m.record_size("geometry-1", 1, 40);
    m.record_size("geometry-1", 40, 1);
    assert_eq!(m.size_of("geometry-1"), Some((120, 40)));
    assert!(matches!(m.resize("missing", 1, 1), Ok(ResizeAction::Ignore)));
    assert!(matches!(m.resize("missing", 80, 24), Err(PtyError::NotFound(_))));
}

#[test]
fn close_all_keeps_tmux_sessions_alive() {
    let mut m = tmux_manager();
    let plan = m.create_session("tmux-one", "/w", None, 80, 24).unwrap();
    m.register_session("tmux-one".to_string(), plan.backend, 1, "/w".to_string(), 80, 24)
        .map_err(|(e, _)| e)
        .unwrap();
    m.set_use_tmux(false);
    let plan = m.create_session("native-one", "/w", None, 80, 24).unwrap();
    assert!(matches!(plan.backend, SessionBackend::Native));
    m.register_session("native-one".to_string(), plan.backend, 2, "/w".to_string(), 80, 24)
        .map_err(|(e, _)| e)
        .unwrap();
    let all = m.close_all();
    assert_eq!(all.len(), 2);
    assert!(all.iter().all(|t| t.kill_external.is_none() && !t.report_exit));
    assert_eq!(all[0].session_id, "tmux-one");
    assert_eq!(all[1].transport, 2);
    assert!(m.list_sessions().is_empty());
    assert!(matches!(m.activity_check("native-one"), ActivityCheck::Untracked));
    assert!(matches!(m.activity_check("tmux-one"), ActivityCheck::Untracked));
}

#[test]
fn tmux_activity_is_asked_of_tmux() {
    let mut m = tmux_manager();
    let plan = m.create_session("xyz", "/w", None, 80, 24).unwrap();
    m.register_session("xyz".to_string(), plan.backend, 1, "/w".to_string(), 80, 24)
        .map_err(|(e, _)| e)
        .unwrap();
    match m.activity_check("xyz") {
        ActivityCheck::External(args) => assert_eq!(args, strs(&["has-session", "-t", "ct-xyz"])),
        _ => panic!("expected a tmux probe"),
    }
}

#[test]
fn tmux_plan_for_interactive_zsh() {
    let m = tmux_manager();
    let plan = m.create_session("0123456789abcdef", "/home/u/my proj", None, 80, 24).unwrap();
    assert!(!plan.watch_exit);
    let create = plan.tmux_create.unwrap();
    assert_eq!(
        create,
        strs(&[
            "new-session",
            "-d",
            "-s",
            "ct-01234567",
            "-c",
            "/home/u/my proj",
            "-x",
            "80",
            "-y",
            "24",
            "/usr/bin/env TERM=xterm-256color COLORTERM=truecolor CONTROL_TOWER=1 PS1='%F{cyan}my proj%f %F{blue}$%f ' /bin/zsh --no-rcs",
        ])
    );
    assert_eq!(plan.tmux_options.len(), 4);
    assert_eq!(plan.tmux_options[0], strs(&["set-option", "-t", "ct-01234567", "status", "off"]));
    assert_eq!(plan.tmux_options[1], strs(&["set-option", "-t", "ct-01234567", "-g", "mouse", "on"]));
    assert_eq!(plan.tmux_options[2], strs(&["set-option", "-t", "ct-01234567", "history-limit", "50000"]));
    assert_eq!(
        plan.tmux_options[3],
        strs(&["set-option", "-t", "ct-01234567", "default-command", "/bin/zsh --no-rcs"])
    );
    assert_eq!(plan.spawn.env.len(), 3);
}

#[test]
fn tmux_plan_for_command_escapes_quotes() {
    let m: TerminalManager<u32> =
        TerminalManager::new(true, "/usr/bin/bash".to_string(), Some("tmux 3.4".to_string()));
    let plan = m.create_session("ab", "/w", Some("echo 'hi'"), 100, 5).unwrap();
    assert!(plan.watch_exit);
    assert_eq!(
        plan.tmux_create.unwrap()[10],
        "/usr/bin/bash --norc --noprofile -c 'echo '\\''hi'\\'''"
    );
    assert_eq!(plan.tmux_options.len(), 3);
    assert_eq!(
        tmux_shell_command_string("/bin/sh", ShellFamily::Other, None, "x"),
        "/usr/bin/env TERM=xterm-256color COLORTERM=truecolor CONTROL_TOWER=1 /bin/sh"
    );
    assert_eq!(
        tmux_shell_command_string("/bin/sh", ShellFamily::Other, Some("ls"), "x"),
        "/bin/sh -c 'ls'"
    );
}

#[test]
fn native_commands_skip_rc_files() {
    let c = native_command("/bin/bash", "/srv/app", None);
    assert_eq!(c.program, "/bin/bash");
    assert_eq!(c.args, strs(&["--norc", "--noprofile"]));
    assert_eq!(c.cwd, "/srv/app");
    assert_eq!(
        c.env.last().unwrap(),
        &("PS1".to_string(), "\\[\\033[36m\\]app\\[\\033[0m\\] \\[\\033[34m\\]$\\[\\033[0m\\] ".to_string())
    );
    let c = native_command("/bin/zsh", "/", Some("make test"));
    assert_eq!(c.args, strs(&["--no-rcs", "-c", "make test"]));
    assert_eq!(c.env.len(), 3);
    assert_eq!(c.env[2], ("CONTROL_TOWER".to_string(), "1".to_string()));
    let c = native_command("/bin/fish", "/x", None);
    assert!(c.args.is_empty());
    assert_eq!(c.env[3].1, "\\[\\033[36m\\]x\\[\\033[0m\\] \\[\\033[34m\\]$\\[\\033[0m\\] ");
    let c = native_command("/bin/zsh", "/a/b/", None);
    assert_eq!(c.env[3].1, "%F{cyan}b%f %F{blue}$%f ");
}

#[test]
fn shell_families() {
    assert_eq!(shell_family("/bin/zsh"), ShellFamily::Zsh);
    assert_eq!(shell_family("/usr/local/bin/bash"), ShellFamily::Bash);
    assert_eq!(shell_family("/bin/sh"), ShellFamily::Other);
    assert_eq!(shell_family(""), ShellFamily::Other);
}

#[test]
fn tmux_names_keep_eight_id_characters() {
    assert_eq!(tmux_name_for("550e8400-e29b-41d4-a716-446655440000"), "ct-550e8400");
    assert_eq!(tmux_name_for("abc"), "ct-abc");
    assert_eq!(tmux_name_for(""), "ct-");
}

#[test]
fn listing_keeps_namespaced_sessions() {
    assert_eq!(list_sessions_command()[2], "#{session_name}\t#{session_path}\t#{session_created}");
    let out = "ct-aaaa1111\t/home/u\t1700000000\nother\t/x\t1\r\nct-bbbb\t/p\r\nct-cccc\n\nct-dddd\t/q\t1\t2";
    let r = parse_session_listing(out);
    assert_eq!(r.len(), 4);
    assert_eq!(r[0].name, "ct-aaaa1111");
    assert_eq!(r[0].working_directory, "/home/u");
    assert_eq!(r[0].created_at, "1700000000");
    assert_eq!(r[1].name, "ct-bbbb");
    assert_eq!(r[1].working_directory, "/p");
    assert_eq!(r[1].created_at, "");
    assert_eq!(r[2].name, "ct-cccc");
    assert_eq!(r[2].working_directory, "");
    assert_eq!(r[3].created_at, "1\t2");
    assert!(parse_session_listing("").is_empty());
}

#[test]
fn orphan_sweep_kills_only_unknown_sessions() {
    let live: Vec<TmuxSessionInfo> = ["app-aaaa1111", "app-bbbb2222", "app-cccc3333"]
        .iter()
        .map(|n| TmuxSessionInfo {
            name: n.to_string(),
            working_directory: String::new(),
            created_at: String::new(),
        })
        .collect();
    let known = vec!["app-aaaa1111".to_string()];
    assert_eq!(orphaned_sessions(&known, &live), strs(&["app-bbbb2222", "app-cccc3333"]));
    assert!(orphaned_sessions(&strs(&["app-aaaa1111", "app-bbbb2222", "app-cccc3333"]), &live).is_empty());
    assert_eq!(orphaned_sessions(&Vec::new(), &live).len(), 3);
}

#[test]
fn reader_events_follow_reads() {
    let buf = [b'A', b'\n', b'B', 0, 0];
    match reader_event("s", Some(3), &buf) {
        ReaderEvent::Output(e) => {
            assert_eq!(e.session_id, "s");
            assert_eq!(e.data, vec![b'A', b'\n', b'B']);
        }
        ReaderEvent::Exit(_) => panic!("data read as exit"),
    }
    match reader_event("s", Some(0), &buf) {
        ReaderEvent::Exit(e) => assert_eq!(e.exit_code, None),
        ReaderEvent::Output(_) => panic!("end of stream read as data"),
    }
    assert!(matches!(reader_event("s", None, &buf), ReaderEvent::Exit(_)));
}

#[test]
fn monitor_steps() {
    assert_eq!(monitor_step(PollOutcome::Running), MonitorStep::KeepPolling);
    assert_eq!(monitor_step(PollOutcome::Exited(2)), MonitorStep::ReportExit(2));
    assert_eq!(monitor_step(PollOutcome::Failed), MonitorStep::ReportExit(-1));
    assert_eq!(monitor_step(PollOutcome::Unavailable), MonitorStep::Stop);
}

#[test]
fn error_messages() {
    assert_eq!(PtyError::AlreadyExists("x".to_string()).message(), "Session x already exists");
    assert_eq!(PtyError::NotFound("y".to_string()).message(), "Session y not found");
    assert_eq!(PtyError::ExternalCommandFailed("no server".to_string()).message(), "tmux error: no server");
    assert_eq!(PtyError::SpawnFailed("no pty".to_string()).message(), "Failed to start terminal: no pty");
    assert_eq!(PtyError::IoFailure("closed".to_string()).message(), "Terminal I/O failed: closed");
}

#[test]
fn attach_needs_the_tmux_session_to_exist() {
    assert!(TerminalManager::<u32>::confirm_attach(true, "ct-1").is_ok());
    match TerminalManager::<u32>::confirm_attach(false, "ct-1") {
        Err(PtyError::NotFound(n)) => assert_eq!(n, "ct-1"),
        _ => panic!("a vanished tmux session was accepted"),
    }
}

#[test]
fn attach_to_a_tmux_session_held_by_another_id_is_refused() {
    let mut m = tmux_manager();
    let plan = m.create_session("holder-1", "/w", None, 80, 24).unwrap();
    m.register_session("holder-1".to_string(), plan.backend, 1, "/w".to_string(), 80, 24)
        .map_err(|(e, _)| e)
        .unwrap();
    assert!(matches!(m.attach_session("other", "ct-holder-1", "/w", 80, 24), Err(PtyError::AlreadyExists(_))));
    assert!(m.attach_session("holder-1", "ct-holder-1", "/w", 80, 24).is_ok());
    match m.replace_session("other".to_string(), "ct-holder-1".to_string(), 2, "/w".to_string(), 80, 24) {
        Err((PtyError::AlreadyExists(_), t)) => assert_eq!(t, 2),
        _ => panic!("shared tmux session accepted"),
    }
}

#[test]
fn running_sessions_are_selected_in_order() {
    let ids = strs(&["a", "b", "c", "d"]);
    assert_eq!(select_running(&ids, &vec![true, false, true, true]), strs(&["a", "c", "d"]));
    assert!(select_running(&ids, &vec![false, false, false, false]).is_empty());
    assert!(select_running(&Vec::new(), &Vec::new()).is_empty());
}

#[test]
fn session_info_reports_the_directory() {
    let mut m = native_manager();
    add_native(&mut m, "info", 1);
    let i = m.get_session_info("info").unwrap();
    assert_eq!(i.session_id, "info");
    assert_eq!(i.working_directory, "/home/u/proj");
    assert!(!i.created_at.is_empty());
}
