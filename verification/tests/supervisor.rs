use moose_core::supervisor::{
    interrupt_kill_target, plan_launch, LaunchProbe, StartDecision, StopAction, Supervisor,
};

#[test]
fn fresh_supervisor_is_idle() {
    let s = Supervisor::new();
    assert!(!s.running());
    assert_eq!(s.shared_pid, 0);
    assert_eq!(s.start_decision(), StartDecision::Spawn);
}

#[test]
fn second_start_reports_already_running_and_spawns_nothing() {
    let mut s = Supervisor::new();
    assert_eq!(s.start_decision(), StartDecision::Spawn);
    s.record_spawn(4242);
    // the one recorded child, mirrored for the signal handler
    assert!(s.running());
    assert_eq!(s.child, Some(4242));
    assert_eq!(s.shared_pid, 4242);
    // a second start without a stop decides not to spawn
    assert_eq!(s.start_decision(), StartDecision::AlreadyRunning);
    assert_eq!(s.child, Some(4242));
}

#[test]
fn stop_kills_the_recorded_child_and_clears_the_slot() {
    let mut s = Supervisor::new();
    s.record_spawn(77);
    assert_eq!(s.take_for_stop(), StopAction::Kill { pid: 77 });
    assert!(!s.running());
    assert_eq!(s.shared_pid, 0);
}

#[test]
fn stop_when_idle_is_a_success_without_a_kill() {
    let mut s = Supervisor::new();
    assert_eq!(s.take_for_stop(), StopAction::NotRunning);
    assert!(!s.running());
    // and after a full start/stop cycle the same holds again
    s.record_spawn(9);
    let _ = s.take_for_stop();
    assert_eq!(s.take_for_stop(), StopAction::NotRunning);
}

#[test]
fn interrupt_handler_kills_only_a_recorded_pid() {
    assert_eq!(interrupt_kill_target(0), None);
    assert_eq!(interrupt_kill_target(4242), Some(4242));
}

#[test]
fn prebuilt_entry_launches_the_runtime_directly() {
    let probe = LaunchProbe {
        gateway_dir: "/opt/app/resources/gateway".to_string(),
        entry_exists: true,
        node_bin: "/usr/bin/node".to_string(),
        pnpm_available: true,
        port: 18789,
    };
    let c = plan_launch(&probe);
    assert_eq!(c.program, "/usr/bin/node");
    assert_eq!(c.args, vec!["gateway/server.js".to_string()]);
    assert_eq!(c.dir, "/opt/app/resources/gateway");
    assert_eq!(c.port, 18789);
}

#[test]
fn missing_entry_falls_back_to_the_package_manager() {
    let probe = LaunchProbe {
        gateway_dir: "/home/dev/project".to_string(),
        entry_exists: false,
        node_bin: "node".to_string(),
        pnpm_available: true,
        port: 18789,
    };
    let c = plan_launch(&probe);
    assert_eq!(c.program, "pnpm");
    assert_eq!(c.args, vec!["run".to_string(), "gateway".to_string()]);
    assert_eq!(c.dir, "/home/dev/project");

    let probe2 = LaunchProbe { pnpm_available: false, ..probe };
    let c2 = plan_launch(&probe2);
    assert_eq!(c2.program, "npm");
    assert_eq!(c2.args, vec!["run".to_string(), "gateway".to_string()]);
}
