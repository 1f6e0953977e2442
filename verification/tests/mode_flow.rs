use dot_agent_deck::mode_manager::{
    command_write_step, new_command_writes, quote_shell_arg, routed_pane_change, WriteAction, WriteEvent, ActivationStep, CommandRoute, ModeConfig, ModeManager, ModeManagerError, PaneConfig, PaneError,
    PaneChange, ReactivePool, RuleConfig, CLEAR_PROMPT_LINE,
};

fn config(init: Option<&str>, reactive: usize) -> ModeConfig {
    ModeConfig {
        name: "dev".into(),
        init_command: init.map(str::to_string),
        panes: vec![
            PaneConfig { name: Some("server".into()), command: "npm run dev".into(), watch: false },
            PaneConfig { name: None, command: "git status".into(), watch: true },
        ],
        rules: vec![
            RuleConfig { pattern: "^cargo test".into(), watch: false, interval: None },
            RuleConfig { pattern: "^kubectl get".into(), watch: true, interval: Some(2) },
        ],
        reactive_panes: reactive,
    }
}

/// Drive an activation to its end, naming the panes `p0`, `p1`, ...
fn activate(m: &mut ModeManager, cfg: &ModeConfig) -> Vec<String> {
    let (closed, act) = m.begin_activation(cfg, Some("/work"), (24, 80), "/bin/deck");
    assert!(closed.is_empty());
    let mut act = act.expect("patterns compile");
    let mut names = Vec::new();
    let mut created = None;
    let mut k = 0;
    loop {
        match m.activation_step(&mut act, cfg, "/bin/deck", created.take()) {
            ActivationStep::CreatePane { display_name, cwd, rows, cols } => {
                assert_eq!(cwd.as_deref(), Some("/work"));
                assert_eq!((rows, cols), (24, 80));
                names.push(display_name);
                created = Some(Ok(format!("p{k}")));
                k += 1;
            }
            ActivationStep::Activated => return names,
            ActivationStep::Failed { .. } => panic!("no creation failed"),
        }
    }
}

#[test]
fn mode_activation_creates_persistent_then_reactive_panes() {
    let cfg = config(None, 2);
    let mut m = ModeManager::new();
    let names = activate(&mut m, &cfg);
    assert_eq!(names, ["server", "git status", "reactive-0", "reactive-1"]);
    assert_eq!(m.active_mode_name(), Some("dev"));
    assert_eq!(m.managed_pane_ids(), ["p0", "p1", "p2", "p3"]);
    assert!(m.is_reactive_pane("p2"));
    assert!(!m.is_reactive_pane("p0"));
    let writes = m.start_mode_commands().expect("active");
    let lines: Vec<Vec<String>> = writes.iter().map(|w| w.lines.clone()).collect();
    assert_eq!(
        lines,
        vec![
            vec!["npm run dev".to_string()],
            vec![format!("{} watch --interval 10 {}", quote_shell_arg("/bin/deck"), quote_shell_arg("git status"))],
        ]
    );
    assert!(m.start_mode_commands().unwrap().is_empty());
}

#[test]
fn mode_activation_with_init_queues_reactive_panes_too() {
    let cfg = config(Some("source .env"), 2);
    let mut m = ModeManager::new();
    activate(&mut m, &cfg);
    let writes = m.start_mode_commands().expect("active");
    assert_eq!(writes.len(), 4);
    assert_eq!(writes[0].lines, ["source .env", "npm run dev"]);
    assert_eq!(writes[2].pending.pane_id, "p2");
    assert_eq!(writes[2].lines, ["source .env".to_string(), CLEAR_PROMPT_LINE.to_string()]);
}

#[test]
fn mode_activation_failure_closes_what_was_created() {
    let cfg = config(None, 2);
    let mut m = ModeManager::new();
    let (_, act) = m.begin_activation(&cfg, None, (10, 10), "/bin/deck");
    let mut act = act.unwrap();
    assert!(matches!(m.activation_step(&mut act, &cfg, "/bin/deck", None), ActivationStep::CreatePane { .. }));
    assert!(matches!(
        m.activation_step(&mut act, &cfg, "/bin/deck", Some(Ok("p0".into()))),
        ActivationStep::CreatePane { .. }
    ));
    match m.activation_step(&mut act, &cfg, "/bin/deck", Some(Err(PaneError::CommandFailed("tmux".into())))) {
        ActivationStep::Failed { close, error } => {
            assert_eq!(close, ["p0"]);
            assert_eq!(error, ModeManagerError::Pane(PaneError::CommandFailed("tmux".into())));
        }
        other => panic!("expected a failure, got {other:?}"),
    }
    assert_eq!(m.active_mode_name(), None);
}

#[test]
fn mode_activation_rejects_an_invalid_pattern() {
    let mut cfg = config(None, 1);
    cfg.rules.push(RuleConfig { pattern: "(unclosed".into(), watch: false, interval: None });
    let mut m = ModeManager::new();
    let (_, act) = m.begin_activation(&cfg, None, (10, 10), "/bin/deck");
    match act {
        Err(ModeManagerError::InvalidPattern { pattern, source }) => {
            assert_eq!(pattern, "(unclosed");
            assert!(!source.is_empty());
        }
        Err(other) => panic!("expected an invalid pattern, got {other:?}"),
        Ok(_) => panic!("expected an invalid pattern, got an activation"),
    }
}

#[test]
fn mode_commands_route_round_robin_by_replacing_panes() {
    let cfg = config(None, 2);
    let mut m = ModeManager::new();
    activate(&mut m, &cfg);
    match m.handle_command("cargo test -p x", "/bin/deck").unwrap() {
        Some(CommandRoute::Replace { old_pane_id, command_line, display_name, cwd, rows, cols }) => {
            assert_eq!(old_pane_id, "p2");
            assert_eq!(command_line, "cargo test -p x");
            assert_eq!(display_name, "cargo test -p x");
            assert_eq!(cwd.as_deref(), Some("/work"));
            assert_eq!((rows, cols), (24, 80));
        }
        other => panic!("expected a replacement, got {other:?}"),
    }
    m.reactive_pane_created("p2", "p9".into());
    assert!(m.is_reactive_pane("p9"));
    assert!(!m.is_reactive_pane("p2"));
    match m.handle_command("kubectl get pods", "/bin/deck").unwrap() {
        Some(CommandRoute::Replace { old_pane_id, command_line, .. }) => {
            assert_eq!(old_pane_id, "p3");
            assert_eq!(command_line, "'/bin/deck' watch --interval 2 'kubectl get pods'");
        }
        other => panic!("expected a replacement, got {other:?}"),
    }
    match m.handle_command("cargo test", "/bin/deck").unwrap() {
        Some(CommandRoute::Replace { old_pane_id, .. }) => assert_eq!(old_pane_id, "p9"),
        other => panic!("expected a replacement, got {other:?}"),
    }
    assert_eq!(m.handle_command("ls -la", "/bin/deck").unwrap(), None);
}

#[test]
fn mode_commands_rewrite_in_place_with_an_init_command() {
    let cfg = config(Some("source .env"), 1);
    let mut m = ModeManager::new();
    activate(&mut m, &cfg);
    match m.handle_command("cargo test", "/bin/deck").unwrap() {
        Some(CommandRoute::Rewrite { pane_id, line, title }) => {
            assert_eq!(pane_id, "p2");
            assert_eq!(line, format!("{CLEAR_PROMPT_LINE} && cargo test"));
            assert_eq!(title, "cargo test");
        }
        other => panic!("expected a rewrite, got {other:?}"),
    }
}

#[test]
fn mode_errors_without_active_mode_or_reactive_panes() {
    let mut m = ModeManager::new();
    assert_eq!(m.handle_command("cargo test", "/bin/deck"), Err(ModeManagerError::NoActiveMode));
    assert_eq!(m.deactivate_mode(), Err(ModeManagerError::NoActiveMode));
    assert!(matches!(m.start_mode_commands(), Err(ModeManagerError::NoActiveMode)));
    let cfg = config(None, 0);
    activate(&mut m, &cfg);
    assert_eq!(
        m.handle_command("cargo test", "/bin/deck"),
        Err(ModeManagerError::Pane(PaneError::CommandFailed("No reactive panes available".into())))
    );
}

#[test]
fn mode_deactivation_and_reactivation_hand_back_the_panes() {
    let cfg = config(None, 1);
    let mut m = ModeManager::new();
    activate(&mut m, &cfg);
    m.forget_panes(&["p1".to_string()]);
    assert_eq!(m.managed_pane_ids(), ["p0", "p2"]);
    let (closed, act) = m.begin_activation(&cfg, None, (1, 1), "/bin/deck");
    assert_eq!(closed, ["p0", "p2"]);
    assert!(act.is_ok());
    assert_eq!(m.active_mode_name(), None);
}

#[test]
fn reactive_pool_allocates_round_robin_and_forgets() {
    let mut pool = ReactivePool::new();
    assert_eq!(pool.allocate(), None);
    pool.add("a".into());
    pool.add("b".into());
    pool.add("c".into());
    assert_eq!(pool.allocate().as_deref(), Some("a"));
    assert_eq!(pool.allocate().as_deref(), Some("b"));
    pool.replace("b", "b2".into());
    assert_eq!(pool.all_ids(), ["a", "b2", "c"]);
    assert_eq!(pool.allocate().as_deref(), Some("c"));
    assert_eq!(pool.allocate().as_deref(), Some("a"));
    pool.forget(&["a".to_string()]);
    assert_eq!(pool.all_ids(), ["b2", "c"]);
}

#[test]
fn routed_pane_change_reports_the_reused_or_replaced_pane() {
    let rewrite = CommandRoute::Rewrite { pane_id: "p2".into(), line: "x".into(), title: "cargo test".into() };
    assert_eq!(routed_pane_change(&rewrite, None), PaneChange { closed: None, created: Some("p2".into()) });
    let replace = CommandRoute::Replace {
        old_pane_id: "p3".into(),
        command_line: "cargo test".into(),
        display_name: "cargo test".into(),
        cwd: None,
        rows: 24,
        cols: 80,
    };
    assert_eq!(
        routed_pane_change(&replace, Some("p7".into())),
        PaneChange { closed: Some("p3".into()), created: Some("p7".into()) }
    );
}

#[test]
fn mode_commands_requeue_exactly_the_entries_whose_write_failed() {
    let cfg = config(Some("source .env"), 2);
    let mut m = ModeManager::new();
    activate(&mut m, &cfg);
    let writes = m.start_mode_commands().expect("active");
    let mut st = new_command_writes(writes);
    let mut event = WriteEvent::Started;
    let mut written: Vec<(String, String)> = Vec::new();
    let failed = loop {
        match command_write_step(&mut st, event) {
            WriteAction::Write { pane_id, line } => {
                let ok = pane_id != "p2";
                written.push((pane_id, line));
                event = WriteEvent::Wrote(ok);
            }
            WriteAction::Done(failed) => break failed,
        }
    };
    // p2's first write fails: none of its later lines is written.
    let to_p2: Vec<&(String, String)> = written.iter().filter(|(p, _)| p == "p2").collect();
    assert_eq!(to_p2.len(), 1);
    assert_eq!(to_p2[0].1, "source .env");
    assert!(written.iter().any(|(p, l)| p == "p3" && l == CLEAR_PROMPT_LINE));
    assert_eq!(failed.len(), 1);
    assert_eq!(failed[0].pane_id, "p2");
    m.requeue_pending(failed);
    let again = m.start_mode_commands().expect("active");
    assert_eq!(again.len(), 1);
    assert_eq!(again[0].pending.pane_id, "p2");
}
