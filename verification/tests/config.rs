use remote_cockpit::config::{ConfigError, DataDir, DesktopConfig, DesktopEnv, GatewayConfig, GatewayEnv};

fn desktop_env() -> DesktopEnv {
    DesktopEnv {
        rc_gateway_url: None,
        rc_token: Some("tok".into()),
        rc_device_id: None,
        rc_shell: None,
        host_name: Some("box".into()),
        shell: None,
        windows: false,
    }
}

#[test]
fn desktop_defaults() {
    let c = DesktopConfig::from_env(desktop_env()).unwrap();
    assert_eq!(c.gateway_url, "wss://127.0.0.1:8443/ws");
    assert_eq!(c.token, "tok");
    assert_eq!(c.device_id, "box");
    assert_eq!(c.shell, "/bin/sh");
}

#[test]
fn desktop_token_is_required() {
    let env = DesktopEnv { rc_token: None, ..desktop_env() };
    let e = DesktopConfig::from_env(env).unwrap_err();
    assert_eq!(e, ConfigError::MissingToken);
    assert_eq!(e.message(), "RC_TOKEN env var is required (desktop JWT)");
    let env = DesktopEnv { rc_token: None, host_name: None, ..desktop_env() };
    assert_eq!(DesktopConfig::from_env(env).unwrap_err(), ConfigError::MissingToken);
    let env = DesktopEnv { rc_device_id: None, host_name: None, ..desktop_env() };
    assert!(DesktopConfig::from_env(env).is_ok());
}

#[test]
fn desktop_explicit_values_win() {
    let env = DesktopEnv {
        rc_gateway_url: Some("wss://gw:9/ws".into()),
        rc_device_id: Some("dev-ws".into()),
        rc_shell: Some("/bin/zsh".into()),
        shell: Some("/bin/bash".into()),
        ..desktop_env()
    };
    let c = DesktopConfig::from_env(env).unwrap();
    assert_eq!(c.gateway_url, "wss://gw:9/ws");
    assert_eq!(c.device_id, "dev-ws");
    assert_eq!(c.shell, "/bin/zsh");
    let env = DesktopEnv { rc_device_id: Some("dev-ws".into()), host_name: None, ..desktop_env() };
    assert_eq!(DesktopConfig::from_env(env).unwrap().device_id, "dev-ws");
}

#[test]
fn desktop_host_name_and_os_shell_fallbacks() {
    let env = DesktopEnv { shell: Some("/bin/bash".into()), ..desktop_env() };
    let c = DesktopConfig::from_env(env).unwrap();
    assert_eq!(c.device_id, "box");
    assert_eq!(c.shell, "/bin/bash");
    let env = DesktopEnv { host_name: Some("PC".into()), shell: Some("/bin/bash".into()), windows: true, ..desktop_env() };
    let c = DesktopConfig::from_env(env).unwrap();
    assert_eq!(c.device_id, "PC");
    assert_eq!(c.shell, "powershell.exe");
}

#[test]
fn desktop_device_id_falls_back_without_a_host_name() {
    let env = DesktopEnv { host_name: None, ..desktop_env() };
    let c = DesktopConfig::from_env(env).unwrap();
    assert_eq!(c.device_id, "desktop");
}

#[test]
fn gateway_defaults_and_secret() {
    let env = GatewayEnv { rc_bind_addr: None, rc_gateway_secret: Some("s".into()), rc_data_dir: None };
    let c = GatewayConfig::from_env(env).unwrap();
    assert_eq!(c.bind_addr, "127.0.0.1:8443");
    assert_eq!(c.jwt_secret, "s");
    assert!(matches!(c.data_dir, DataDir::UnderWorkingDir));

    let env = GatewayEnv {
        rc_bind_addr: Some("0.0.0.0:8443".into()),
        rc_gateway_secret: Some("s".into()),
        rc_data_dir: Some("/var/rc".into()),
    };
    let c = GatewayConfig::from_env(env).unwrap();
    assert_eq!(c.bind_addr, "0.0.0.0:8443");
    match c.data_dir {
        DataDir::Given(d) => assert_eq!(d, "/var/rc"),
        DataDir::UnderWorkingDir => panic!("expected the given data dir"),
    }
}

#[test]
fn gateway_secret_is_required() {
    let env = GatewayEnv { rc_bind_addr: None, rc_gateway_secret: None, rc_data_dir: None };
    let e = GatewayConfig::from_env(env).unwrap_err();
    assert_eq!(e, ConfigError::MissingSecret);
    assert_eq!(e.message(), "RC_GATEWAY_SECRET env var is required (JWT signing secret)");
}
