use moose_core::paths::{
    config_path, gateway_port, model_path, moose_dir, parse_u16, DEFAULT_GATEWAY_PORT,
    MODEL_FILENAME,
};
use moose_core::resolver::{
    resolve_bin, resolve_gateway_dir, AncestorProbe, BundledProbe, GatewayDir, ResolveError,
};

#[test]
fn bin_at_the_first_well_known_path_wins() {
    // present at /usr/bin: that exact absolute path comes back
    assert_eq!(resolve_bin("node", true, false), "/usr/bin/node");
    // present at both: the first well-known path still wins
    assert_eq!(resolve_bin("node", true, true), "/usr/bin/node");
    assert_eq!(resolve_bin("docker", false, true), "/usr/local/bin/docker");
}

#[test]
fn bin_absent_everywhere_stays_the_bare_name() {
    assert_eq!(resolve_bin("node", false, false), "node");
}

fn ancestor(dir: &str, root: bool, dist_built: bool) -> AncestorProbe {
    AncestorProbe {
        dir: dir.to_string(),
        dist_dir: format!("{}/dist", dir),
        has_project_marker: root,
        has_workspace_marker: root,
        has_gateway_sources: false,
        dist_entry_exists: dist_built,
    }
}

#[test]
fn bundled_gateway_wins_over_everything() {
    let bundled = Some(BundledProbe {
        dir: "/opt/app/resources/gateway".to_string(),
        entry_exists: true,
    });
    let ancestors = vec![ancestor("/home/dev/project", true, true)];
    match resolve_gateway_dir(bundled, ancestors).unwrap() {
        GatewayDir::Bundled { dir } => assert_eq!(dir, "/opt/app/resources/gateway"),
        other => panic!("bundled must win, got {:?}", other),
    }
}

#[test]
fn nearest_project_root_with_built_dist_is_used() {
    let ancestors = vec![
        ancestor("/home/dev/project/app", false, false),
        ancestor("/home/dev/project", true, true),
        ancestor("/home/dev", false, false),
    ];
    match resolve_gateway_dir(None, ancestors).unwrap() {
        GatewayDir::Dist { dir } => assert_eq!(dir, "/home/dev/project/dist"),
        other => panic!("the built dist must be used, got {:?}", other),
    }
}

#[test]
fn project_root_without_dist_falls_back_to_the_root_itself() {
    // a bundled probe whose entry file is missing does not win
    let bundled = Some(BundledProbe {
        dir: "/opt/app/resources/gateway".to_string(),
        entry_exists: false,
    });
    let ancestors = vec![ancestor("/home/dev/project", true, false)];
    match resolve_gateway_dir(bundled, ancestors).unwrap() {
        GatewayDir::ProjectRoot { dir } => assert_eq!(dir, "/home/dev/project"),
        other => panic!("the project root must be used, got {:?}", other),
    }
}

#[test]
fn marker_without_workspace_or_sources_is_no_root() {
    let mut a = ancestor("/home/dev", false, false);
    a.has_project_marker = true;  // package.json alone is not enough
    let r = resolve_gateway_dir(None, vec![a]);
    assert!(matches!(r, Err(ResolveError::NotFound)));
}

#[test]
fn gateway_sources_mark_a_root_without_the_workspace_marker() {
    let a = AncestorProbe {
        dir: "/home/dev/project".to_string(),
        dist_dir: "/home/dev/project/dist".to_string(),
        has_project_marker: true,
        has_workspace_marker: false,
        has_gateway_sources: true,
        dist_entry_exists: false,
    };
    match resolve_gateway_dir(None, vec![a]).unwrap() {
        GatewayDir::ProjectRoot { dir } => assert_eq!(dir, "/home/dev/project"),
        other => panic!("sources mark a root, got {:?}", other),
    }
}

#[test]
fn no_strategy_resolves_not_found() {
    assert!(matches!(resolve_gateway_dir(None, vec![]), Err(ResolveError::NotFound)));
}

#[test]
fn fixed_paths_join_under_the_data_root() {
    assert_eq!(moose_dir("/home/u"), "/home/u/.moose");
    assert_eq!(config_path("/home/u"), "/home/u/.moose/config.json");
    assert_eq!(
        model_path("/home/u"),
        format!("/home/u/.moose/models/llama-cpp/{}", MODEL_FILENAME)
    );
}

#[test]
fn test_default_gateway_port() {
    // without a port variable, the default comes back
    assert_eq!(gateway_port(None), DEFAULT_GATEWAY_PORT);
    assert_eq!(DEFAULT_GATEWAY_PORT, 18789);
}

#[test]
fn port_variable_overrides_when_it_parses() {
    assert_eq!(gateway_port(Some(&"8080".to_string())), 8080);
    assert_eq!(gateway_port(Some(&"+123".to_string())), 123);
    assert_eq!(gateway_port(Some(&"65535".to_string())), 65535);
    assert_eq!(gateway_port(Some(&"00042".to_string())), 42);
}

#[test]
fn unparseable_port_variable_falls_back_to_the_default() {
    assert_eq!(gateway_port(Some(&"".to_string())), DEFAULT_GATEWAY_PORT);
    assert_eq!(gateway_port(Some(&"abc".to_string())), DEFAULT_GATEWAY_PORT);
    assert_eq!(gateway_port(Some(&"65536".to_string())), DEFAULT_GATEWAY_PORT);
    assert_eq!(gateway_port(Some(&"-1".to_string())), DEFAULT_GATEWAY_PORT);
    assert_eq!(gateway_port(Some(&"80 80".to_string())), DEFAULT_GATEWAY_PORT);
    assert_eq!(gateway_port(Some(&"+".to_string())), DEFAULT_GATEWAY_PORT);
}

#[test]
fn port_parse_agrees_with_the_standard_parser() {
    for s in ["0", "1", "18789", "65535", "65536", "99999999999999999999", "+7", "-7", "", "x",
        "1x", " 1", "1 "]
    {
        assert_eq!(parse_u16(s), s.parse::<u16>().ok(), "input {:?}", s);
    }
}
