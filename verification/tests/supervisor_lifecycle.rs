use multi_agent_file_processor::supervisor::{
    AgentConfig, ExitAction, RestartPolicy, Supervisor,
};

fn cfg(name: &str, restart: RestartPolicy) -> AgentConfig {
    AgentConfig {
        name: name.to_string(),
        bin: format!("{name}_bin"),
        enabled: true,
        restart,
    }
}

fn live_names(s: &Supervisor) -> Vec<String> {
    let mut names = Vec::new();
    for i in 0..s.agent_count() {
        names.push(s.agent_at(i).config.name.clone());
    }
    names
}

fn live_ids(s: &Supervisor) -> Vec<u64> {
    let mut ids = Vec::new();
    for i in 0..s.agent_count() {
        ids.push(s.agent_at(i).id);
    }
    ids
}

#[test]
fn identities_are_fresh_and_distinct() {
    let mut s = Supervisor::new();
    let a = s.register_spawn(cfg("a", RestartPolicy::Always));
    let b = s.register_spawn(cfg("b", RestartPolicy::Always));
    let c = s.register_spawn(cfg("c", RestartPolicy::Always));
    assert_eq!((a, b, c), (0, 1, 2));
    let ids = live_ids(&s);
    for i in 0..ids.len() {
        for j in 0..ids.len() {
            if i != j {
                assert_ne!(ids[i], ids[j], "no two live entries may share an identity");
            }
        }
    }
}

#[test]
fn never_agent_is_not_respawned() {
    let mut s = Supervisor::new();
    let id = s.register_spawn(cfg("c", RestartPolicy::Never));
    s.startup_complete();
    let action = s.handle_exit(id, false);
    assert!(matches!(action, ExitAction::Remove));
    assert_eq!(s.agent_count(), 0);
    assert!(s.is_idle());
}

#[test]
fn always_agent_is_respawned_on_clean_and_unclean_exit() {
    let mut s = Supervisor::new();
    let id = s.register_spawn(cfg("a", RestartPolicy::Always));
    s.startup_complete();
    let action = s.handle_exit(id, true);
    let respawned = match action {
        ExitAction::Respawn(c) => c,
        ExitAction::Remove => panic!("Always must respawn on a clean exit"),
    };
    let id2 = s.register_spawn(respawned);
    assert_ne!(id, id2, "a respawned agent receives a fresh identity");
    let action = s.handle_exit(id2, false);
    assert!(matches!(action, ExitAction::Respawn(_)), "Always must respawn on a failure too");
}

#[test]
fn on_failure_agent_respawns_only_on_failure() {
    let mut s = Supervisor::new();
    let id = s.register_spawn(cfg("b", RestartPolicy::OnFailure));
    s.startup_complete();
    let action = s.handle_exit(id, true);
    assert!(matches!(action, ExitAction::Remove), "OnFailure must not respawn after a clean exit");
    let id2 = s.register_spawn(cfg("b", RestartPolicy::OnFailure));
    let action = s.handle_exit(id2, false);
    assert!(matches!(action, ExitAction::Respawn(_)), "OnFailure must respawn after a failure");
}

#[test]
fn crash_loop_does_not_duplicate_entries() {
    let mut s = Supervisor::new();
    let mut id = s.register_spawn(cfg("a", RestartPolicy::Always));
    s.startup_complete();
    for _ in 0..5 {
        let action = s.handle_exit(id, false);
        let c = match action {
            ExitAction::Respawn(c) => c,
            ExitAction::Remove => panic!("Always must respawn"),
        };
        id = s.register_spawn(c);
        let entries = live_names(&s).iter().filter(|n| *n == "a").count();
        assert_eq!(entries, 1, "a crash loop must not duplicate managed entries");
    }
}

#[test]
fn exit_event_for_unknown_identity_changes_nothing() {
    let mut s = Supervisor::new();
    s.register_spawn(cfg("a", RestartPolicy::Always));
    s.startup_complete();
    let action = s.handle_exit(999, false);
    assert!(matches!(action, ExitAction::Remove));
    assert_eq!(s.agent_count(), 1);
}

#[test]
fn spawn_failure_is_fatal_only_during_startup() {
    let mut s = Supervisor::new();
    assert!(s.spawn_failure_is_fatal());
    s.register_spawn(cfg("a", RestartPolicy::Always));
    s.startup_complete();
    assert!(!s.spawn_failure_is_fatal());
}

#[test]
fn shutdown_empties_the_managed_set() {
    let mut s = Supervisor::new();
    s.register_spawn(cfg("a", RestartPolicy::Always));
    s.register_spawn(cfg("b", RestartPolicy::OnFailure));
    s.register_spawn(cfg("c", RestartPolicy::Never));
    s.startup_complete();
    let doomed = s.begin_shutdown();
    assert_eq!(doomed.len(), 3, "every managed process must be handed over for killing");
    assert_eq!(s.agent_count(), 0, "no managed process may remain after shutdown");
    assert!(s.is_stopped());
}

#[test]
fn three_agents_kill_b_three_times() {
    // Agents A: Always, B: OnFailure, C: Never.  B's process is killed
    // externally three times in a row; each time B must reappear with a
    // freshly assigned identity.  C must not reappear after its first
    // exit.  A, left untouched, stays in the managed set throughout.
    let mut s = Supervisor::new();
    let id_a = s.register_spawn(cfg("A", RestartPolicy::Always));
    let mut id_b = s.register_spawn(cfg("B", RestartPolicy::OnFailure));
    let id_c = s.register_spawn(cfg("C", RestartPolicy::Never));
    s.startup_complete();

    let mut seen_b_ids = vec![id_b];
    for round in 0..3 {
        // An external kill is not a clean exit.
        let action = s.handle_exit(id_b, false);
        let c = match action {
            ExitAction::Respawn(c) => c,
            ExitAction::Remove => panic!("B must be respawned after kill {round}"),
        };
        assert_eq!(c.name, "B");
        id_b = s.register_spawn(c);
        assert!(
            !seen_b_ids.contains(&id_b),
            "B must reappear with a freshly assigned identity"
        );
        seen_b_ids.push(id_b);
        assert!(live_names(&s).contains(&"B".to_string()), "B must reappear in the managed set");
        assert!(live_names(&s).contains(&"A".to_string()), "A must remain untouched");
    }

    // C exits once and must not reappear.
    let action = s.handle_exit(id_c, false);
    assert!(matches!(action, ExitAction::Remove));
    assert!(!live_names(&s).contains(&"C".to_string()));

    // A was never touched and is still managed under its original identity.
    assert!(live_ids(&s).contains(&id_a));
    assert_eq!(live_names(&s).len(), 2);
}
