use wado_compositor::session_env::{env_edits, AppEnv, EnvEdit};

fn assign(key: &str, value: &str) -> (String, Option<String>) {
    (key.to_string(), Some(value.to_string()))
}

fn remove(key: &str) -> (String, Option<String>) {
    (key.to_string(), None)
}

fn edits(env: &AppEnv) -> Vec<(String, Option<String>)> {
    env_edits(env)
        .into_iter()
        .map(|e| match e {
            EnvEdit::Assign { key, value } => (key, Some(value)),
            EnvEdit::Remove { key } => (key, None),
        })
        .collect()
}

#[test]
fn an_isolated_app_loses_display_and_gains_the_private_bus() {
    let env = AppEnv::Isolated { bus: Some("unix:path=/tmp/wado-test-bus".to_string()), x: None };
    assert_eq!(
        edits(&env),
        vec![
            remove("DISPLAY"),
            assign("DBUS_SESSION_BUS_ADDRESS", "unix:path=/tmp/wado-test-bus"),
            remove("DBUS_SESSION_BUS_PID"),
            remove("DBUS_STARTER_ADDRESS"),
            remove("DBUS_STARTER_BUS_TYPE"),
        ]
    );
}

#[test]
fn the_session_x_server_is_used_in_either_mode() {
    assert_eq!(edits(&AppEnv::Host { x: Some(":21".to_string()) }), vec![assign("DISPLAY", ":21")]);
    assert_eq!(
        edits(&AppEnv::Isolated { bus: None, x: Some(":22".to_string()) }),
        vec![assign("DISPLAY", ":22")]
    );
    assert!(edits(&AppEnv::Host { x: None }).is_empty());
}

#[test]
fn a_session_isolates_its_apps_only_when_asked() {
    let env = AppEnv::for_session(true, Some("unix:path=/b".to_string()), None);
    assert!(matches!(env, AppEnv::Isolated { bus: Some(ref b), x: None } if b == "unix:path=/b"));
    let env = AppEnv::for_session(false, None, Some(":20".to_string()));
    assert!(matches!(env, AppEnv::Host { x: Some(ref d) } if d == ":20"));
}
