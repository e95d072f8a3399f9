use moose_core::config::AppConfig;
use moose_core::paths::MODEL_FILENAME;
use moose_core::probes::{interpret_engine_probe, interpret_version_probe, CommandOutcome, ProbeError};
use moose_core::startup::{make_startup_info, model_is_ready};

fn ran(status_ok: bool, stdout: &str, stderr: &str) -> Result<CommandOutcome, String> {
    Ok(CommandOutcome {
        status_ok,
        stdout: stdout.to_string(),
        stderr: stderr.to_string(),
    })
}

#[test]
fn version_probe_trims_the_reported_version() {
    // the raw output carries a trailing newline; the verdict must not
    let r = interpret_version_probe(ran(true, "v22.11.0\n", ""));
    assert_eq!(r.unwrap(), "v22.11.0");
    let r2 = interpret_version_probe(ran(true, "  v20.1.0 \n", ""));
    assert_eq!(r2.unwrap(), "v20.1.0");
}

#[test]
fn version_probe_failure_status_surfaces_the_error_output() {
    let r = interpret_version_probe(ran(false, "", "segfault"));
    assert_eq!(r, Err(ProbeError::Tool("segfault".to_string())));
}

#[test]
fn version_probe_launch_failure_means_tool_not_found() {
    let r = interpret_version_probe(Err("No such file or directory".to_string()));
    assert_eq!(r, Err(ProbeError::Launch("No such file or directory".to_string())));
}

#[test]
fn engine_probe_healthy_when_status_succeeds() {
    assert_eq!(interpret_engine_probe(ran(true, "lots of info", "")), Ok(true));
}

#[test]
fn engine_probe_failure_carries_the_cause() {
    assert_eq!(
        interpret_engine_probe(ran(false, "", "daemon not running")),
        Err(ProbeError::Tool("daemon not running".to_string()))
    );
    assert_eq!(
        interpret_engine_probe(Err("permission denied".to_string())),
        Err(ProbeError::Launch("permission denied".to_string()))
    );
}

#[test]
fn model_readiness_needs_presence_and_size() {
    assert!(!model_is_ready(None));
    assert!(!model_is_ready(Some(0)));
    assert!(!model_is_ready(Some(7_500_000_000)));  // the floor itself is not enough
    assert!(model_is_ready(Some(7_500_000_001)));
    assert!(model_is_ready(Some(8_200_000_000)));
}

#[test]
fn startup_snapshot_reports_a_ready_model() {
    let cfg = AppConfig { setup_complete: true, theme: "light".to_string() };
    let info = make_startup_info(cfg.clone(), Some(8_200_000_000), 18789);
    assert_eq!(info.config, cfg);
    assert!(info.model_exists);
    assert_eq!(info.model_size, 8_200_000_000);
    assert_eq!(info.model_name, MODEL_FILENAME);
    assert_eq!(info.gateway_port, 18789);
}

#[test]
fn startup_snapshot_reports_an_absent_or_small_model() {
    let cfg = AppConfig::default();
    let absent = make_startup_info(cfg.clone(), None, 8080);
    assert!(!absent.model_exists);
    assert_eq!(absent.model_size, 0);
    assert_eq!(absent.model_name, MODEL_FILENAME);
    assert_eq!(absent.gateway_port, 8080);

    let small = make_startup_info(cfg, Some(1_000_000), 8080);
    assert!(!small.model_exists);
    assert_eq!(small.model_size, 0);
}
