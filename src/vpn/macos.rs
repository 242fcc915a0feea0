use vstd::prelude::*;
use crate::text::{escape_default, escaped};
use crate::vpn::{
    command_views, disabled, local_proxy_setting, shell_command, shell_view, sudo_run_script,
    sudo_run_script_spec, sudo_script, sudo_script_spec, CommandSpec, CommandView,
    PrivilegedLaunch, SystemProxySetting, LOCAL_PROXY_HOST, LOCAL_PROXY_PORT,
};

verus! {

/// Addresses that bypass the system proxy on macOS.
pub const DEFAULT_BYPASS: &'static str =
    "127.0.0.1,192.168.0.0/16,10.0.0.0/8,172.16.0.0/12,172.29.0.0/16,localhost,*.local,*.crashlytics.com,<local>";

/// The proxy that the system settings point at.
pub struct ProxyConfig {
    pub host: String,
    pub port: u16,
    pub bypass: String,
}

impl Default for ProxyConfig {
    fn default() -> (r: ProxyConfig)
        ensures
            r.host@ == LOCAL_PROXY_HOST@,
            r.port == LOCAL_PROXY_PORT,
            r.bypass@ == DEFAULT_BYPASS@,
    {
        ProxyConfig {
            host: String::from_str(LOCAL_PROXY_HOST),
            port: LOCAL_PROXY_PORT,
            bypass: String::from_str(DEFAULT_BYPASS),
        }
    }
}

/// The elevated sidecar launch on macOS, with the open-file limit raised.
pub open spec fn tun_launch_script(password: Seq<char>, sidecar_path: Seq<char>, path: Seq<char>) -> Seq<
    char,
> {
    "ulimit -n 65535 && "@ + sudo_run_script_spec(escaped(password), escaped(sidecar_path), escaped(path))
}

/// Switches IP forwarding on (`on`) or off, for use as a bypass router.
pub open spec fn forwarding_view(password: Seq<char>, on: bool) -> CommandView {
    shell_view(
        sudo_script_spec(
            password,
            if on {
                "sysctl -w net.inet.ip.forwarding=1"@
            } else {
                "sysctl -w net.inet.ip.forwarding=0"@
            },
        ),
    )
}

fn forwarding_command(password: &str, on: bool) -> (r: CommandSpec)
    ensures
        r@ == forwarding_view(password@, on),
{
    if on {
        shell_command(sudo_script(password, "sysctl -w net.inet.ip.forwarding=1"))
    } else {
        shell_command(sudo_script(password, "sysctl -w net.inet.ip.forwarding=0"))
    }
}

/// The macOS adapter: proxy settings through the network services,
/// elevation through `sudo`.
pub struct MacOSVpnProxy;

impl MacOSVpnProxy {
    /// The settings that switch the system proxy on.
    pub fn set_proxy() -> (r: SystemProxySetting)
        ensures
            r.enable,
            r.host@ == LOCAL_PROXY_HOST@,
            r.port == LOCAL_PROXY_PORT,
            r.bypass@ == DEFAULT_BYPASS@,
    {
        let config = ProxyConfig::default();
        local_proxy_setting(config.bypass.as_str())
    }

    /// The current settings with the proxy switched off.
    pub fn unset_proxy(current: SystemProxySetting) -> (r: SystemProxySetting)
        ensures
            !r.enable,
            r.host == current.host,
            r.port == current.port,
            r.bypass == current.bypass,
    {
        disabled(current)
    }

    /// Runs the sidecar under `sudo`. `bypass_router` is the stored
    /// bypass-router flag, `None` when the settings store cannot be opened, in
    /// which case nothing is launched. With the flag set, IP forwarding is
    /// switched on first.
    pub fn create_privileged_command(
        sidecar_path: &str,
        path: &str,
        password: &str,
        bypass_router: Option<bool>,
    ) -> (r: PrivilegedLaunch)
        ensures
            r@.elevated is None,
            bypass_router is None ==> r@.child is None && r@.prepare.len() == 0,
            bypass_router is Some ==> r@.child == Some(
                shell_view(tun_launch_script(password@, sidecar_path@, path@)),
            ),
            bypass_router == Some(true) ==> r@.prepare == seq![forwarding_view(password@, true)],
            bypass_router == Some(false) ==> r@.prepare.len() == 0,
    {
        match bypass_router {
            None => PrivilegedLaunch { prepare: Vec::new(), child: None, elevated: None },
            Some(enabled) => {
                let p = escape_default(password);
                let s = escape_default(sidecar_path);
                let c = escape_default(path);
                let script = String::from_str("ulimit -n 65535 && ").concat(
                    sudo_run_script(p.as_str(), s.as_str(), c.as_str()).as_str(),
                );
                let mut prepare: Vec<CommandSpec> = Vec::new();
                if enabled {
                    prepare.push(forwarding_command(password, true));
                }
                let r = PrivilegedLaunch {
                    prepare,
                    child: Some(shell_command(script)),
                    elevated: None,
                };
                assert(enabled ==> r@.prepare =~= seq![forwarding_view(password@, true)]);
                r
            },
        }
    }

    /// Kills the elevated sidecar with SIGTERM, then switches IP forwarding
    /// off again.
    pub fn stop_tun_process(password: &str) -> (r: Vec<CommandSpec>)
        ensures
            command_views(r@) == seq![
                shell_view(sudo_script_spec(password@, "pkill -15 -f sing-box"@)),
                forwarding_view(password@, false),
            ],
    {
        let mut r: Vec<CommandSpec> = Vec::new();
        r.push(shell_command(sudo_script(password, "pkill -15 -f sing-box")));
        r.push(forwarding_command(password, false));
        assert(command_views(r@) =~= seq![
            shell_view(sudo_script_spec(password@, "pkill -15 -f sing-box"@)),
            forwarding_view(password@, false),
        ]);
        r
    }
}

} // verus!
