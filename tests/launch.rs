use containy::launch::{
    is_single_component, Action, ErrorKind, Event, LaunchConfig, Launcher, NamespaceSet, ProcFile,
};
use containy::options::{parse_mount, MountSpec};

fn config(command: &str, mounts: Vec<MountSpec>, env: Vec<(String, String)>) -> LaunchConfig {
    LaunchConfig {
        rootfs: "/tmp/fakeroot".to_string(),
        command: command.to_string(),
        args: vec![],
        mounts,
        env,
        namespaces: NamespaceSet {
            user: false,
            mount: false,
            pid: true,
            uts: false,
            net: false,
            ipc: false,
        },
        uid: 1000,
        gid: 100,
    }
}

/// Answers every action with success until the command is to run, and
/// returns the actions seen, the last being the run.
fn run_to_command(l: &mut Launcher, scratch: &str) -> Vec<Action> {
    let mut seen = Vec::new();
    loop {
        let a = l.current();
        let ev = match &a {
            Action::CreateScratch { .. } => Event::ScratchCreated { name: scratch.to_string() },
            Action::Run { .. } | Action::Exit { .. } | Action::Fail { .. } => {
                seen.push(a);
                return seen;
            }
            _ => Event::Done,
        };
        seen.push(a);
        l.advance(ev);
    }
}

#[test]
fn true_in_fakeroot_exits_zero() {
    let mut l = Launcher::new(config("/bin/true", vec![], vec![]));
    let seen = run_to_command(&mut l, "old-root.Ab12");
    assert_eq!(seen.len(), 13);
    match &seen[0] {
        Action::Unshare { namespaces } => {
            assert!(namespaces.user && namespaces.mount && namespaces.pid);
            assert!(!namespaces.uts && !namespaces.net && !namespaces.ipc);
        }
        other => panic!("unexpected {:?}", other),
    }
    assert!(matches!(&seen[1], Action::MakePrivate { path } if path == "/"));
    assert!(matches!(&seen[2],
        Action::WriteProcFile { file: ProcFile::UidMap, content } if content == "0 1000 1"));
    assert!(matches!(&seen[3],
        Action::WriteProcFile { file: ProcFile::Setgroups, content } if content == "deny"));
    assert!(matches!(&seen[4],
        Action::WriteProcFile { file: ProcFile::GidMap, content } if content == "0 100 1"));
    assert!(matches!(&seen[5],
        Action::BindMount { source, target, .. } if source == "/tmp/fakeroot" && target == "/tmp/fakeroot"));
    assert!(matches!(&seen[6], Action::ChangeDir { path } if path == "/tmp/fakeroot"));
    assert!(matches!(&seen[7],
        Action::CreateScratch { parent, prefix } if parent == "." && prefix == "old-root"));
    assert!(matches!(&seen[8],
        Action::PivotRoot { new_root, put_old } if new_root == "." && put_old == "old-root.Ab12"));
    assert!(matches!(&seen[9], Action::ChangeDir { path } if path == "/"));
    assert!(matches!(&seen[10], Action::DetachUnmount { path } if path == "/old-root.Ab12"));
    assert!(matches!(&seen[11], Action::RemoveDir { path } if path == "/old-root.Ab12"));
    match &seen[12] {
        Action::Run { command, args, env } => {
            assert_eq!(command, "/bin/true");
            assert!(args.is_empty());
            assert!(env.is_empty());
        }
        other => panic!("unexpected {:?}", other),
    }
    l.advance(Event::Exited { code: Some(0) });
    assert!(matches!(l.current(), Action::Exit { code: 0 }));
}

#[test]
fn exit_code_of_command_is_passed_on() {
    let mut l = Launcher::new(config("/bin/false", vec![], vec![]));
    run_to_command(&mut l, "old-root.x");
    l.advance(Event::Exited { code: Some(3) });
    assert!(matches!(l.current(), Action::Exit { code: 3 }));
}

#[test]
fn command_killed_by_signal_exits_one() {
    let mut l = Launcher::new(config("/bin/sleep", vec![], vec![]));
    run_to_command(&mut l, "old-root.x");
    l.advance(Event::Exited { code: None });
    assert!(matches!(l.current(), Action::Exit { code: 1 }));
}

#[test]
fn missing_command_is_a_launch_error() {
    let mut l = Launcher::new(config("/bin/nonexistent", vec![], vec![]));
    let seen = run_to_command(&mut l, "old-root.x");
    assert!(matches!(seen.last(), Some(Action::Run { .. })));
    l.advance(Event::Failed { errno: 2 });
    assert!(matches!(l.current(),
        Action::Fail { kind: ErrorKind::Launch, errno: Some(2) }));
}

#[test]
fn failed_pivot_stops_before_command() {
    let mut l = Launcher::new(config("/bin/true", vec![], vec![]));
    loop {
        match l.current() {
            Action::CreateScratch { .. } => {
                l.advance(Event::ScratchCreated { name: "old-root.q".to_string() })
            }
            Action::PivotRoot { .. } => break,
            Action::Run { .. } | Action::Exit { .. } | Action::Fail { .. } => {
                panic!("pivot never asked for")
            }
            _ => l.advance(Event::Done),
        }
    }
    l.advance(Event::Failed { errno: 22 });
    assert!(matches!(l.current(), Action::Fail { kind: ErrorKind::Pivot, errno: Some(22) }));
    l.advance(Event::Done);
    l.advance(Event::Exited { code: Some(0) });
    assert!(matches!(l.current(), Action::Fail { kind: ErrorKind::Pivot, errno: Some(22) }));
}

#[test]
fn failures_are_blamed_on_their_stage() {
    let expected = [
        ErrorKind::Namespace,
        ErrorKind::Mount,
        ErrorKind::IdentityMap,
        ErrorKind::IdentityMap,
        ErrorKind::IdentityMap,
        ErrorKind::Mount,
        ErrorKind::Pivot,
        ErrorKind::Mount,
        ErrorKind::Pivot,
        ErrorKind::Pivot,
        ErrorKind::Pivot,
        ErrorKind::Mount,
        ErrorKind::Pivot,
        ErrorKind::Launch,
    ];
    let mounts = vec![parse_mount("/srv:/srv").unwrap()];
    for (at, kind) in expected.iter().enumerate() {
        let mut l = Launcher::new(config("/bin/true", mounts.clone(), vec![]));
        for _ in 0..at {
            match l.current() {
                Action::CreateScratch { .. } => {
                    l.advance(Event::ScratchCreated { name: "old-root.z".to_string() })
                }
                _ => l.advance(Event::Done),
            }
        }
        l.advance(Event::Failed { errno: 1 });
        match l.current() {
            Action::Fail { kind: got, errno: Some(1) } => assert_eq!(got, *kind),
            other => panic!("unexpected {:?}", other),
        }
    }
}

#[test]
fn mounts_applied_in_given_order_inside_rootfs() {
    let mounts = vec![
        parse_mount("/host/a:/a").unwrap(),
        parse_mount("/host/b:/deep/b").unwrap(),
        parse_mount("/host/c:c").unwrap(),
    ];
    let mut l = Launcher::new(config("/bin/true", mounts, vec![]));
    let seen = run_to_command(&mut l, "old-root.m");
    assert_eq!(seen.len(), 16);
    assert!(matches!(&seen[6], Action::ChangeDir { path } if path == "/tmp/fakeroot"));
    let want = [("/host/a", "a"), ("/host/b", "deep/b"), ("/host/c", "c")];
    for (i, (src, dst)) in want.iter().enumerate() {
        match &seen[7 + i] {
            Action::BindMount { source, target, .. } => {
                assert_eq!(source, src);
                assert_eq!(target, dst);
            }
            other => panic!("unexpected {:?}", other),
        }
    }
    assert!(matches!(&seen[10], Action::CreateScratch { .. }));
    assert!(matches!(&seen[11], Action::PivotRoot { .. }));
}

#[test]
fn scratch_dir_is_detached_and_removed() {
    let mut l = Launcher::new(config("/bin/true", vec![], vec![]));
    let seen = run_to_command(&mut l, "old-root.S9");
    let removed: Vec<&Action> = seen
        .iter()
        .filter(|a| matches!(a, Action::RemoveDir { path } if path == "/old-root.S9"))
        .collect();
    assert_eq!(removed.len(), 1);
    assert!(matches!(&seen[seen.len() - 3], Action::DetachUnmount { path } if path == "/old-root.S9"));
}

#[test]
fn command_env_is_exactly_the_supplied_set() {
    let env = vec![
        ("A".to_string(), "1".to_string()),
        ("ONLY_HERE".to_string(), "x".to_string()),
        ("A".to_string(), "2".to_string()),
    ];
    let mut l = Launcher::new(config("/bin/env", vec![], env));
    let seen = run_to_command(&mut l, "old-root.e");
    match seen.last() {
        Some(Action::Run { env, .. }) => {
            assert_eq!(env.len(), 2);
            assert!(env.contains(&("A".to_string(), "2".to_string())));
            assert!(env.contains(&("ONLY_HERE".to_string(), "x".to_string())));
            assert!(!env.iter().any(|(n, _)| n == "HOME" || n == "PATH"));
        }
        other => panic!("unexpected {:?}", other),
    }
}

#[test]
fn scratch_name_outside_rootfs_is_refused() {
    for bad in ["", "..", ".", "a/b", "/abs"] {
        let mut l = Launcher::new(config("/bin/true", vec![], vec![]));
        loop {
            match l.current() {
                Action::CreateScratch { .. } => break,
                _ => l.advance(Event::Done),
            }
        }
        l.advance(Event::ScratchCreated { name: bad.to_string() });
        assert!(matches!(l.current(), Action::Fail { kind: ErrorKind::Pivot, errno: None }));
    }
}

#[test]
fn event_that_does_not_answer_the_action_fails() {
    let mut l = Launcher::new(config("/bin/true", vec![], vec![]));
    l.advance(Event::Exited { code: Some(0) });
    assert!(matches!(l.current(), Action::Fail { kind: ErrorKind::Namespace, errno: None }));
}

#[test]
fn single_components_are_accepted() {
    assert!(is_single_component("old-root.a1"));
    assert!(is_single_component("..."));
    assert!(!is_single_component(".."));
    assert!(!is_single_component("x/"));
}
