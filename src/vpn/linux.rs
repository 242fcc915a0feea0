use vstd::prelude::*;
use crate::text::{escape_default, escaped};
use crate::vpn::{
    disabled, local_proxy_setting, shell_command, shell_view, sudo_run_script,
    sudo_run_script_spec, sudo_script, sudo_script_spec, CommandSpec, SystemProxySetting,
    LOCAL_PROXY_HOST, LOCAL_PROXY_PORT,
};

verus! {

/// Addresses that bypass the system proxy on Linux.
pub const DEFAULT_BYPASS: &'static str =
    "localhost,127.0.0.1,192.168.0.0/16,10.0.0.0/8,172.16.0.0/12,172.29.0.0/16,::1";

/// The proxy that the system settings point at.
pub struct ProxyConfig {
    pub host: String,
    pub port: u16,
    pub bypass: String,
}

impl Default for ProxyConfig {
    fn default() -> (r: ProxyConfig)
        ensures
            r.host@ == LOCAL_PROXY_HOST@,
            r.port == LOCAL_PROXY_PORT,
            r.bypass@ == DEFAULT_BYPASS@,
    {
        ProxyConfig {
            host: String::from_str(LOCAL_PROXY_HOST),
            port: LOCAL_PROXY_PORT,
            bypass: String::from_str(DEFAULT_BYPASS),
        }
    }
}

/// The Linux adapter: proxy settings through the desktop's proxy API,
/// elevation through `sudo`.
pub struct LinuxVpnProxy;

impl LinuxVpnProxy {
    /// The settings that switch the system proxy on.
    pub fn set_proxy() -> (r: SystemProxySetting)
        ensures
            r.enable,
            r.host@ == LOCAL_PROXY_HOST@,
            r.port == LOCAL_PROXY_PORT,
            r.bypass@ == DEFAULT_BYPASS@,
    {
        let config = ProxyConfig::default();
        local_proxy_setting(config.bypass.as_str())
    }

    /// The current settings with the proxy switched off.
    pub fn unset_proxy(current: SystemProxySetting) -> (r: SystemProxySetting)
        ensures
            !r.enable,
            r.host == current.host,
            r.port == current.port,
            r.bypass == current.bypass,
    {
        disabled(current)
    }

    /// Runs the sidecar under `sudo`, with every interpolated text escaped.
    pub fn create_privileged_command(sidecar_path: &str, path: &str, password: &str) -> (r:
        CommandSpec)
        ensures
            r@ == shell_view(
                sudo_run_script_spec(escaped(password@), escaped(sidecar_path@), escaped(path@)),
            ),
    {
        let p = escape_default(password);
        let s = escape_default(sidecar_path);
        let c = escape_default(path);
        shell_command(sudo_run_script(p.as_str(), s.as_str(), c.as_str()))
    }

    /// Kills the elevated sidecar by name.
    pub fn stop_tun_process(password: &str) -> (r: CommandSpec)
        ensures
            r@ == shell_view(sudo_script_spec(password@, "pkill -f sing-box"@)),
    {
        shell_command(sudo_script(password, "pkill -f sing-box"))
    }
}

} // verus!
