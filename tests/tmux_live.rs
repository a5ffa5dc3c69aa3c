use control_tower::pty::{SessionBackend, TerminalManager};
use control_tower::shell::CommandSpec;
use control_tower::tmux::{list_sessions_command, orphaned_sessions, parse_session_listing, target_command};
use portable_pty::{native_pty_system, Child, CommandBuilder, PtySize};
use std::io::{Read, Write};

/// A process running on its own pseudo-terminal.
struct Proc {
    child: Box<dyn Child + Send + Sync>,
    reader: Box<dyn Read + Send>,
    writer: Box<dyn Write + Send>,
}

fn spawn(program: &str, args: &[String], cwd: &str, env: &[(String, String)]) -> Proc {
    let pair = native_pty_system()
        .openpty(PtySize { rows: 24, cols: 80, pixel_width: 0, pixel_height: 0 })
        .expect("open a pseudo-terminal");
    let mut cmd = CommandBuilder::new(program);
    for a in args {
        cmd.arg(a);
    }
    cmd.cwd(cwd);
    for (k, v) in env {
        cmd.env(k, v);
    }
    let child = pair.slave.spawn_command(cmd).expect("spawn");
    drop(pair.slave);
    let reader = pair.master.try_clone_reader().unwrap();
    let writer = pair.master.take_writer().unwrap();
    Proc { child, reader, writer }
}

fn spawn_spec(spec: &CommandSpec) -> Proc {
    spawn(&spec.program, &spec.args, &spec.cwd, &spec.env)
}

fn read_to_end(p: &mut Proc) -> String {
    let mut out = Vec::new();
    let mut buf = [0u8; 4096];
    loop {
        match p.reader.read(&mut buf) {
            Ok(0) | Err(_) => break,
            Ok(n) => out.extend_from_slice(&buf[..n]),
        }
    }
    String::from_utf8_lossy(&out).to_string()
}

/// Runs tmux to completion; its output and whether it succeeded.
fn tmux(args: &[String]) -> (String, bool) {
    let mut p = spawn("tmux", args, "/tmp", &[]);
    let out = read_to_end(&mut p);
    let ok = p.child.wait().map(|s| s.success()).unwrap_or(false);
    (out, ok)
}

fn pause(seconds: &str) {
    let mut p = spawn("sleep", &[seconds.to_string()], "/tmp", &[]);
    let _ = read_to_end(&mut p);
    let _ = p.child.wait();
}

fn tmux_session_alive(name: &str) -> bool {
    tmux(&target_command("has-session", name)).1
}

fn kill(name: &str) {
    let _ = tmux(&target_command("kill-session", name));
}

/// Creates the tmux session of a planned tmux-backed session.
fn create_tmux(m: &TerminalManager<u32>, id: &str) -> (Option<String>, CommandSpec, SessionBackend) {
    let plan = m.create_session(id, "/tmp", None, 80, 24).unwrap();
    assert!(tmux(plan.tmux_create.as_ref().unwrap()).1, "tmux new-session failed");
    for option in &plan.tmux_options {
        let _ = tmux(option);
    }
    let name = match &plan.backend {
        SessionBackend::Tmux { tmux_name } => Some(tmux_name.clone()),
        SessionBackend::Native => None,
    };
    (name, plan.spawn, plan.backend)
}

#[test]
fn reattached_session_keeps_its_shell_state() {
    let id = "zq3reattach";
    let mut m: TerminalManager<u32> = TerminalManager::new(true, "/bin/sh".to_string(), Some("tmux".to_string()));
    let (name, spawn_spec_1, backend) = create_tmux(&m, id);
    let name = name.unwrap();
    assert_eq!(name, "ct-zq3reatt");
    let mut first = spawn_spec(&spawn_spec_1);
    m.register_session(id.to_string(), backend, 1, "/tmp".to_string(), 80, 24)
        .map_err(|(e, _)| e)
        .unwrap();
    pause("1");
    first.writer.write_all(b"X=zq\n").unwrap();
    first.writer.flush().unwrap();
    pause("1");

    let d = m.detach_session(id).unwrap();
    assert!(d.kill_external.is_none());
    let _ = first.child.kill();
    let _ = first.child.wait();
    assert!(tmux_session_alive(&name), "detaching ended the tmux session");

    let plan = m.attach_session(id, &name, "/tmp", 100, 30).unwrap();
    let probe_ok = tmux(&plan.probe).1;
    assert!(TerminalManager::<u32>::confirm_attach(probe_ok, &name).is_ok());
    let _ = tmux(&plan.resize);
    let mut second = spawn_spec(&plan.spawn);
    m.replace_session(id.to_string(), name.clone(), 2, "/tmp".to_string(), 100, 30)
        .map_err(|(e, _)| e)
        .unwrap();
    pause("1");
    second.writer.write_all(b"echo ${X}ok${X}\n").unwrap();
    second.writer.flush().unwrap();
    pause("1");

    let c = m.close(id).unwrap();
    assert!(tmux(c.kill_external.as_ref().unwrap()).1);
    let out = read_to_end(&mut second);
    let _ = second.child.wait();
    assert!(out.contains("zqokzq"), "the variable set before detaching was lost");
    assert!(!tmux_session_alive(&name));
    let gone = m.attach_session(id, &name, "/tmp", 80, 24).unwrap();
    assert!(TerminalManager::<u32>::confirm_attach(tmux(&gone.probe).1, &name).is_err());
}

#[test]
fn orphan_sweep_kills_unknown_live_sessions() {
    let m: TerminalManager<u32> = TerminalManager::new(true, "/bin/sh".to_string(), Some("tmux".to_string()));
    let known = create_tmux(&m, "zq6known").0.unwrap();
    let orphan = create_tmux(&m, "zq6orphan").0.unwrap();
    let (out, ok) = tmux(&list_sessions_command());
    assert!(ok);
    let mine: Vec<_> = parse_session_listing(&out)
        .into_iter()
        .filter(|s| s.name == known || s.name == orphan)
        .collect();
    assert_eq!(mine.len(), 2);
    assert!(mine.iter().all(|s| s.working_directory == "/tmp" && !s.created_at.is_empty()));
    let doomed = orphaned_sessions(&vec![known.clone()], &mine);
    assert_eq!(doomed, vec![orphan.clone()]);
    for name in &doomed {
        kill(name);
    }
    assert!(tmux_session_alive(&known));
    assert!(!tmux_session_alive(&orphan));
    kill(&known);
}

#[test]
fn shutdown_detaches_tmux_sessions_and_kills_native_ones() {
    let mut m: TerminalManager<u32> = TerminalManager::new(true, "/bin/sh".to_string(), Some("tmux".to_string()));
    let (name, attach, backend) = create_tmux(&m, "zq7tmux");
    let name = name.unwrap();
    let client = spawn_spec(&attach);
    m.register_session("zq7tmux".to_string(), backend, 1, "/tmp".to_string(), 80, 24)
        .map_err(|(e, _)| e)
        .unwrap();
    m.set_use_tmux(false);
    let plan = m.create_session("zq7native", "/tmp", None, 80, 24).unwrap();
    let shell = spawn_spec(&plan.spawn);
    m.register_session("zq7native".to_string(), plan.backend, 2, "/tmp".to_string(), 80, 24)
        .map_err(|(e, _)| e)
        .unwrap();
    let mut procs = vec![client, shell];
    pause("1");

    let teardowns = m.close_all();
    assert_eq!(teardowns.len(), 2);
    for t in &teardowns {
        assert!(t.kill_external.is_none());
        let p = &mut procs[(t.transport - 1) as usize];
        let _ = p.child.kill();
        let _ = p.child.wait();
    }
    assert!(m.list_sessions().is_empty());
    assert!(procs[1].child.try_wait().unwrap().is_some(), "native shell still running");
    assert!(tmux_session_alive(&name), "shutdown ended the tmux session");
    kill(&name);
}
