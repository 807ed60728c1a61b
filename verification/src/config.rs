//! Configuration of the desktop agent and of the gateway, decided from a
//! snapshot of the environment variables they read.

use vstd::prelude::*;

verus! {

/// The text of an optional variable, or `default` when it is unset.
pub open spec fn or_default(v: Option<String>, default: Seq<char>) -> Seq<char> {
    match v {
        Some(s) => s@,
        None => default,
    }
}

fn take_or(v: Option<String>, default: &str) -> (r: String)
    ensures
        r@ == or_default(v, default@),
{
    match v {
        Some(s) => s,
        None => crate::text::owned(default),
    }
}

/// A required variable is unset.
#[derive(Debug, Clone, Copy, PartialEq, Eq, Structural)]
pub enum ConfigError {
    /// `RC_TOKEN` (the desktop agent's JWT) is unset.
    MissingToken,
    /// `RC_GATEWAY_SECRET` (the JWT signing secret) is unset.
    MissingSecret,
}

/// The text of a configuration error.
pub open spec fn config_error_text(e: ConfigError) -> Seq<char> {
    match e {
        ConfigError::MissingToken => "RC_TOKEN env var is required (desktop JWT)"@,
        ConfigError::MissingSecret => "RC_GATEWAY_SECRET env var is required (JWT signing secret)"@,
    }
}

impl ConfigError {
    /// The error's text.
    pub fn message(&self) -> (s: &'static str)
        ensures
            s@ == config_error_text(*self),
    {
        match self {
            ConfigError::MissingToken => "RC_TOKEN env var is required (desktop JWT)",
            ConfigError::MissingSecret => "RC_GATEWAY_SECRET env var is required (JWT signing secret)",
        }
    }
}

/// The environment variables the desktop agent reads (`None` when unset or
/// not valid Unicode), the machine's host name (`None` when it cannot be
/// found), and whether it runs on Windows.
pub struct DesktopEnv {
    pub rc_gateway_url: Option<String>,
    pub rc_token: Option<String>,
    pub rc_device_id: Option<String>,
    pub rc_shell: Option<String>,
    pub host_name: Option<String>,
    pub shell: Option<String>,
    pub windows: bool,
}

/// Desktop agent configuration.
#[derive(Debug, Clone)]
pub struct DesktopConfig {
    /// Gateway WebSocket URL, e.g. `wss://127.0.0.1:8443/ws`.
    pub gateway_url: String,
    /// JWT authenticating this desktop agent.
    pub token: String,
    /// Device identifier registered with the gateway.
    pub device_id: String,
    /// Shell to spawn in the PTY by default.
    pub shell: String,
}

/// The device id used when `RC_DEVICE_ID` is unset: the machine's host
/// name, or `desktop` when it cannot be found.
pub open spec fn default_device_id(env: DesktopEnv) -> Seq<char> {
    or_default(env.host_name, "desktop"@)
}

/// The shell used when `RC_SHELL` is unset: PowerShell on Windows, `SHELL`
/// (else `/bin/sh`) elsewhere.
pub open spec fn default_shell(env: DesktopEnv) -> Seq<char> {
    if env.windows {
        "powershell.exe"@
    } else {
        or_default(env.shell, "/bin/sh"@)
    }
}

impl DesktopConfig {
    /// Decide the configuration.
    ///
    /// Required: `RC_TOKEN`.
    /// Optional: `RC_GATEWAY_URL` (default `wss://127.0.0.1:8443/ws`),
    /// `RC_DEVICE_ID` (default: the host name), `RC_SHELL` (default: the OS
    /// shell).
    pub fn from_env(env: DesktopEnv) -> (r: Result<DesktopConfig, ConfigError>)
        ensures
            r is Err <==> env.rc_token is None,
            r matches Err(e) ==> e == ConfigError::MissingToken,
            r matches Ok(c) ==> {
                &&& c.gateway_url@ == or_default(env.rc_gateway_url, "wss://127.0.0.1:8443/ws"@)
                &&& c.token@ == env.rc_token->0@
                &&& c.device_id@ == or_default(env.rc_device_id, default_device_id(env))
                &&& c.shell@ == or_default(env.rc_shell, default_shell(env))
            },
    {
        let DesktopEnv {
            rc_gateway_url,
            rc_token,
            rc_device_id,
            rc_shell,
            host_name,
            shell,
            windows,
        } = env;
        let gateway_url = take_or(rc_gateway_url, "wss://127.0.0.1:8443/ws");
        let token = match rc_token {
            Some(t) => t,
            None => return Err(ConfigError::MissingToken),
        };
        let device_id = match rc_device_id {
            Some(d) => d,
            None => take_or(host_name, "desktop"),
        };
        let shell = match rc_shell {
            Some(s) => s,
            None => if windows {
                crate::text::owned("powershell.exe")
            } else {
                take_or(shell, "/bin/sh")
            },
        };
        Ok(DesktopConfig { gateway_url, token, device_id, shell })
    }
}

/// The environment variables the gateway reads (`None` when unset or not
/// valid Unicode).
pub struct GatewayEnv {
    pub rc_bind_addr: Option<String>,
    pub rc_gateway_secret: Option<String>,
    pub rc_data_dir: Option<String>,
}

/// Where the gateway keeps its audit database and TLS files.
#[derive(Debug, Clone)]
pub enum DataDir {
    /// The directory named by `RC_DATA_DIR`.
    Given(String),
    /// `.remote-cockpit` under the working directory.
    UnderWorkingDir,
}

/// The directory created under the working directory when `RC_DATA_DIR` is
/// unset.
pub const DEFAULT_DATA_DIR_NAME: &'static str = ".remote-cockpit";

/// File name of the audit database inside the data directory.
pub const AUDIT_DB_FILE: &'static str = "audit.db";

/// File name of the TLS certificate (PEM) inside the data directory.
pub const CERT_FILE: &'static str = "cert.pem";

/// File name of the TLS private key (PEM) inside the data directory.
pub const KEY_FILE: &'static str = "key.pem";

/// Gateway configuration.
#[derive(Debug, Clone)]
pub struct GatewayConfig {
    /// Socket address to bind the TLS WebSocket server.
    pub bind_addr: String,
    /// Shared HS256 secret used to sign/verify JWTs.
    pub jwt_secret: String,
    /// Directory of the audit database (`audit.db`), the certificate
    /// (`cert.pem`) and the private key (`key.pem`).
    pub data_dir: DataDir,
}

impl GatewayConfig {
    /// Decide the configuration.
    ///
    /// Required: `RC_GATEWAY_SECRET`.
    /// Optional: `RC_BIND_ADDR` (default `127.0.0.1:8443`), `RC_DATA_DIR`
    /// (default `./.remote-cockpit`).
    pub fn from_env(env: GatewayEnv) -> (r: Result<GatewayConfig, ConfigError>)
        ensures
            r is Err <==> env.rc_gateway_secret is None,
            r matches Err(e) ==> e == ConfigError::MissingSecret,
            r matches Ok(c) ==> {
                &&& c.bind_addr@ == or_default(env.rc_bind_addr, "127.0.0.1:8443"@)
                &&& c.jwt_secret@ == env.rc_gateway_secret->0@
                &&& match (c.data_dir, env.rc_data_dir) {
                    (DataDir::Given(d), Some(v)) => d@ == v@,
                    (DataDir::UnderWorkingDir, None) => true,
                    _ => false,
                }
            },
    {
        let GatewayEnv { rc_bind_addr, rc_gateway_secret, rc_data_dir } = env;
        let bind_addr = take_or(rc_bind_addr, "127.0.0.1:8443");
        let jwt_secret = match rc_gateway_secret {
            Some(s) => s,
            None => return Err(ConfigError::MissingSecret),
        };
        let data_dir = match rc_data_dir {
            Some(d) => DataDir::Given(d),
            None => DataDir::UnderWorkingDir,
        };
        Ok(GatewayConfig { bind_addr, jwt_secret, data_dir })
    }
}

} // verus!
