use vstd::prelude::*;
use crate::text::{decimal, decimal_string, forward_slashes, with_forward_slashes};
use crate::vpn::{CommandSpec, CommandView, ElevatedCommand, ElevatedView, LOCAL_PROXY_HOST, LOCAL_PROXY_PORT};

verus! {

/// Addresses that bypass the system proxy on Windows.
pub const DEFAULT_BYPASS: &'static str =
    "localhost;127.*;192.168.*;10.*;172.16.*;172.17.*;172.18.*;172.19.*;172.20.*;172.21.*;172.22.*;172.23.*;172.24.*;172.25.*;172.26.*;172.27.*;172.28.*;172.29.*;172.30.*;172.31.*;<local>";

/// Name of the bundled helper that writes the Windows proxy settings.
pub const SYSPROXY_HELPER: &'static str = "sysproxy";

/// The proxy that the system settings point at.
pub struct ProxyConfig {
    pub host: String,
    pub port: u16,
}

impl Default for ProxyConfig {
    fn default() -> (r: ProxyConfig)
        ensures
            r.host@ == LOCAL_PROXY_HOST@,
            r.port == LOCAL_PROXY_PORT,
    {
        ProxyConfig { host: String::from_str(LOCAL_PROXY_HOST), port: LOCAL_PROXY_PORT }
    }
}

/// `host:port` of the local listener.
pub open spec fn proxy_address() -> Seq<char> {
    LOCAL_PROXY_HOST@ + ":"@ + decimal(LOCAL_PROXY_PORT as nat)
}

pub open spec fn helper_view(args: Seq<Seq<char>>) -> CommandView {
    CommandView { program: SYSPROXY_HELPER@, args, bundled: true }
}

/// The elevated launch of the sidecar.
pub open spec fn tun_launch_view(sidecar_path: Seq<char>, path: Seq<char>) -> ElevatedView {
    ElevatedView { file: sidecar_path, parameters: "run -c "@ + path + " --disable-color"@ }
}

/// The PowerShell script that kills the sidecar and starts it again.
pub open spec fn restart_script(sidecar_path: Seq<char>, path: Seq<char>) -> Seq<char> {
    "Stop-Process -Name 'sing-box' -Force -ErrorAction SilentlyContinue; Start-Sleep -Milliseconds 500; & '"@
        + forward_slashes(sidecar_path) + "' run -c '"@ + forward_slashes(path)
        + "' --disable-color"@
}

pub open spec fn restart_view(sidecar_path: Seq<char>, path: Seq<char>) -> ElevatedView {
    ElevatedView {
        file: "powershell"@,
        parameters: "-Command \""@ + restart_script(sidecar_path, path) + "\""@,
    }
}

/// Whether a `ShellExecuteW` return value reports success: values up to 32
/// are error codes.
pub open spec fn spec_shell_execute_succeeded(code: usize) -> bool {
    code > 32
}

pub fn shell_execute_succeeded(code: usize) -> (r: bool)
    ensures
        r == spec_shell_execute_succeeded(code),
{
    code > 32
}

/// The Windows adapter: proxy settings through the bundled helper, elevation
/// through the UAC dialog.
pub struct WindowsVpnProxy;

impl WindowsVpnProxy {
    /// `sysproxy global <host:port> <bypass>`.
    pub fn set_proxy() -> (r: CommandSpec)
        ensures
            r@ == helper_view(seq!["global"@, proxy_address(), DEFAULT_BYPASS@]),
    {
        let config = ProxyConfig::default();
        let address = config.host.concat(":").concat(decimal_string(config.port as u64).as_str());
        let mut args: Vec<String> = Vec::new();
        args.push(String::from_str("global"));
        args.push(address);
        args.push(String::from_str(DEFAULT_BYPASS));
        let r = CommandSpec { program: String::from_str(SYSPROXY_HELPER), args, bundled: true };
        assert(r@.args =~= seq!["global"@, proxy_address(), DEFAULT_BYPASS@]);
        r
    }

    /// `sysproxy set 1`: direct connection.
    pub fn unset_proxy() -> (r: CommandSpec)
        ensures
            r@ == helper_view(seq!["set"@, "1"@]),
    {
        let mut args: Vec<String> = Vec::new();
        args.push(String::from_str("set"));
        args.push(String::from_str("1"));
        let r = CommandSpec { program: String::from_str(SYSPROXY_HELPER), args, bundled: true };
        assert(r@.args =~= seq!["set"@, "1"@]);
        r
    }

    /// Starts the sidecar through the elevation dialog; no handle comes back.
    pub fn create_privileged_command(sidecar_path: &str, path: &str) -> (r: ElevatedCommand)
        ensures
            r@ == tun_launch_view(sidecar_path@, path@),
    {
        ElevatedCommand {
            file: String::from_str(sidecar_path),
            parameters: String::from_str("run -c ").concat(path).concat(" --disable-color"),
        }
    }

    /// Kills every sidecar process by image name, elevated.
    pub fn stop_tun_process() -> (r: ElevatedCommand)
        ensures
            r@ == (ElevatedView { file: "taskkill"@, parameters: "/F /IM sing-box.exe"@ }),
    {
        ElevatedCommand {
            file: String::from_str("taskkill"),
            parameters: String::from_str("/F /IM sing-box.exe"),
        }
    }

    /// Stops the sidecar and starts it again with `path`, in one elevated
    /// PowerShell invocation.
    pub fn restart_privileged_command(sidecar_path: &str, path: &str) -> (r: ElevatedCommand)
        ensures
            r@ == restart_view(sidecar_path@, path@),
    {
        let script = String::from_str(
            "Stop-Process -Name 'sing-box' -Force -ErrorAction SilentlyContinue; Start-Sleep -Milliseconds 500; & '",
        ).concat(with_forward_slashes(sidecar_path).as_str()).concat("' run -c '").concat(
            with_forward_slashes(path).as_str(),
        ).concat("' --disable-color");
        ElevatedCommand {
            file: String::from_str("powershell"),
            parameters: String::from_str("-Command \"").concat(script.as_str()).concat("\""),
        }
    }
}

} // verus!
