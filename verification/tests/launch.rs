use codex_desktop_linux::launch::{
    extension_origin, launch_args, launch_env, require_loopback, websocket_url, EnvValue,
    LaunchAttempts, LaunchPaths, LaunchStep,
};
use codex_desktop_linux::rollout::{step_turn, TurnAction, TurnEvent, TurnWatch};

#[test]
fn non_loopback_addresses_are_refused() {
    assert!(require_loopback("proxy", "127.0.0.1:9000", true).is_ok());
    assert_eq!(
        require_loopback("backend", "10.0.0.5:9000", false).unwrap_err(),
        "refusing to expose the Codex app-server backend on non-loopback address 10.0.0.5:9000"
    );
}

#[test]
fn app_server_is_started_listening_on_the_backend_url() {
    let url = websocket_url("127.0.0.1:4100");
    assert_eq!(url, "ws://127.0.0.1:4100");
    assert_eq!(
        launch_args(&url),
        vec!["app-server", "--listen", "ws://127.0.0.1:4100", "--analytics-default-enabled"]
    );
    assert_eq!(extension_origin("abc"), "chrome-extension://abc");
}

#[test]
fn app_server_environment_names_every_configured_path() {
    let paths = LaunchPaths {
        codex_cli_path: "/opt/codex/codex",
        node_path: "/usr/bin/node",
        node_repl_path: "/opt/codex/repl",
        browser_client_path: None,
        codex_home: Some("/home/u/.codex"),
        resources_path: None,
        node_module_dirs: Some("/a:/b"),
    };
    let env = launch_env(&paths, "127.0.0.1", 8765, Some("ext"), None);
    let names: Vec<&str> = env.iter().map(|(name, _)| name.as_str()).collect();
    assert_eq!(
        names,
        vec![
            "CODEX_CLI_PATH",
            "CODEX_BROWSER_USE_NODE_PATH",
            "NODE_REPL_NODE_PATH",
            "CODEX_NODE_REPL_PATH",
            "CODEX_APP_SERVER_PROXY_HOST",
            "CODEX_APP_SERVER_PROXY_PORT",
            "CODEX_HOME",
            "CODEX_EXTENSION_ID",
            "NODE_REPL_NODE_MODULE_DIRS",
        ]
    );
    assert!(matches!(env[2].1, EnvValue::Path("/usr/bin/node")));
    assert!(matches!(&env[5].1, EnvValue::Text(port) if port == "8765"));
    assert!(matches!(&env[7].1, EnvValue::Text(id) if id == "ext"));
}

#[test]
fn three_failed_starts_give_up_with_every_error() {
    let mut attempts = LaunchAttempts::new();
    assert!(matches!(attempts.launch_failed("first".to_string()), LaunchStep::Retry));
    assert!(matches!(attempts.launch_failed("second".to_string()), LaunchStep::Retry));
    match attempts.launch_failed("third".to_string()) {
        LaunchStep::GiveUp(message) => assert_eq!(message, "first; second; third"),
        LaunchStep::Retry => panic!("the third failure must give up"),
    }
}

#[test]
fn watched_turn_is_found_read_and_announced() {
    let fresh = TurnWatch { found: false, offset: 0 };
    assert_eq!(step_turn(fresh, TurnEvent::Scan { expired: true }).1, TurnAction::Forget);
    assert_eq!(step_turn(fresh, TurnEvent::Scan { expired: false }).1, TurnAction::Search);
    assert_eq!(step_turn(fresh, TurnEvent::Searched { found: false }), (fresh, TurnAction::Wait));

    let (found, action) = step_turn(fresh, TurnEvent::Searched { found: true });
    assert_eq!(found, TurnWatch { found: true, offset: 0 });
    assert_eq!(action, TurnAction::Drain { offset: 0 });

    let (read, action) = step_turn(found, TurnEvent::Drained { offset: 120, complete: false });
    assert_eq!(read, TurnWatch { found: true, offset: 120 });
    assert_eq!(action, TurnAction::Wait);
    assert_eq!(step_turn(read, TurnEvent::Scan { expired: false }).1, TurnAction::Drain { offset: 120 });
    assert_eq!(
        step_turn(read, TurnEvent::Drained { offset: 200, complete: true }).1,
        TurnAction::Announce
    );
}
