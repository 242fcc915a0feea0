//! The platform proxy adapter: what each operating system needs run or written
//! to switch the system proxy, to launch the sidecar with elevated rights and
//! to stop it again. Every operation here only builds the request; the host
//! carries it out.

pub mod linux;
pub mod macos;
pub mod windows;

use vstd::prelude::*;
use crate::mode::Platform;
use crate::text::escaped;
use crate::vpn::linux::LinuxVpnProxy;
use crate::vpn::macos::MacOSVpnProxy;
use crate::vpn::windows::WindowsVpnProxy;

verus! {

/// Address of the local proxy listener that the system proxy points at.
pub const LOCAL_PROXY_HOST: &'static str = "127.0.0.1";

/// Port of the local proxy listener.
pub const LOCAL_PROXY_PORT: u16 = 6789;

/// The command line of a program, as the contracts see it.
pub struct CommandView {
    pub program: Seq<char>,
    pub args: Seq<Seq<char>>,
    pub bundled: bool,
}

/// A program with its arguments, started by the host.
pub struct CommandSpec {
    /// A bundled executable next to the host binary when `bundled` holds,
    /// otherwise a program found on the search path.
    pub program: String,
    pub args: Vec<String>,
    pub bundled: bool,
}

impl View for CommandSpec {
    type V = CommandView;

    open spec fn view(&self) -> CommandView {
        CommandView {
            program: self.program@,
            args: self.args@.map_values(|a: String| a@),
            bundled: self.bundled,
        }
    }
}

/// `sh -c <script>`.
pub open spec fn shell_view(script: Seq<char>) -> CommandView {
    CommandView { program: "sh"@, args: seq!["-c"@, script], bundled: false }
}

/// Builds `sh -c <script>`.
pub fn shell_command(script: String) -> (r: CommandSpec)
    ensures
        r@ == shell_view(script@),
{
    let mut args: Vec<String> = Vec::new();
    args.push(String::from_str("-c"));
    args.push(script);
    let r = CommandSpec { program: String::from_str("sh"), args, bundled: false };
    assert(r@.args =~= shell_view(script@).args);
    r
}

/// A program handed to the operating system's own elevation dialog; the host
/// gets no handle to the process it starts.
pub struct ElevatedCommand {
    pub file: String,
    pub parameters: String,
}

impl View for ElevatedCommand {
    type V = ElevatedView;

    open spec fn view(&self) -> ElevatedView {
        ElevatedView { file: self.file@, parameters: self.parameters@ }
    }
}

pub struct ElevatedView {
    pub file: Seq<char>,
    pub parameters: Seq<char>,
}

/// How the sidecar is brought up with elevated rights.
pub struct PrivilegedLaunch {
    /// Run to completion before the launch; their failures are ignored.
    pub prepare: Vec<CommandSpec>,
    /// Spawned and supervised as a child of the host.
    pub child: Option<CommandSpec>,
    /// Handed to the native elevation dialog instead of being spawned.
    pub elevated: Option<ElevatedCommand>,
}

pub struct LaunchView {
    pub prepare: Seq<CommandView>,
    pub child: Option<CommandView>,
    pub elevated: Option<ElevatedView>,
}

pub open spec fn command_views(cs: Seq<CommandSpec>) -> Seq<CommandView> {
    cs.map_values(|c: CommandSpec| c@)
}

impl View for PrivilegedLaunch {
    type V = LaunchView;

    open spec fn view(&self) -> LaunchView {
        LaunchView {
            prepare: command_views(self.prepare@),
            child: match self.child {
                Some(c) => Some(c@),
                None => None,
            },
            elevated: match self.elevated {
                Some(e) => Some(e@),
                None => None,
            },
        }
    }
}

/// The OS-level proxy configuration, as the system proxy API reads and writes it.
pub struct SystemProxySetting {
    pub enable: bool,
    pub host: String,
    pub port: u16,
    pub bypass: String,
}

/// The same configuration with the proxy switched off.
pub fn disabled(current: SystemProxySetting) -> (r: SystemProxySetting)
    ensures
        !r.enable,
        r.host == current.host,
        r.port == current.port,
        r.bypass == current.bypass,
{
    SystemProxySetting { enable: false, ..current }
}

/// The setting that points the system proxy at the local listener.
pub fn local_proxy_setting(bypass: &str) -> (r: SystemProxySetting)
    ensures
        r.enable,
        r.host@ == LOCAL_PROXY_HOST@,
        r.port == LOCAL_PROXY_PORT,
        r.bypass@ == bypass@,
{
    SystemProxySetting {
        enable: true,
        host: String::from_str(LOCAL_PROXY_HOST),
        port: LOCAL_PROXY_PORT,
        bypass: String::from_str(bypass),
    }
}

/// The script that runs the sidecar under `sudo`, feeding it the password.
/// The three texts are expected to be escaped already.
pub open spec fn sudo_run_script_spec(
    password: Seq<char>,
    sidecar_path: Seq<char>,
    config_path: Seq<char>,
) -> Seq<char> {
    "echo '"@ + password + "' | sudo -S '"@ + sidecar_path + "' run -c '"@ + config_path
        + "' --disable-color"@
}

/// Builds the script that runs the sidecar under `sudo`.
pub fn sudo_run_script(password: &str, sidecar_path: &str, config_path: &str) -> (r: String)
    ensures
        r@ == sudo_run_script_spec(password@, sidecar_path@, config_path@),
{
    String::from_str("echo '").concat(password).concat("' | sudo -S '").concat(sidecar_path).concat(
        "' run -c '",
    ).concat(config_path).concat("' --disable-color")
}

/// A script that runs `tail` under `sudo`, feeding it the password unescaped.
pub open spec fn sudo_script_spec(password: Seq<char>, tail: Seq<char>) -> Seq<char> {
    "echo '"@ + password + "' | sudo -S "@ + tail
}

pub fn sudo_script(password: &str, tail: &str) -> (r: String)
    ensures
        r@ == sudo_script_spec(password@, tail@),
{
    String::from_str("echo '").concat(password).concat("' | sudo -S ").concat(tail)
}

/// How the host switches the system proxy.
pub enum ProxyRequest {
    /// Write this configuration through the system proxy API.
    Apply(SystemProxySetting),
    /// Read the current configuration, switch it off and write it back.
    DisableCurrent,
    /// Run a bundled helper that writes the settings.
    Helper(CommandSpec),
}

/// The literal bypass list of each platform.
pub open spec fn platform_bypass(platform: Platform) -> Seq<char> {
    match platform {
        Platform::Linux => linux::DEFAULT_BYPASS@,
        Platform::MacOS => macos::DEFAULT_BYPASS@,
        Platform::Windows => windows::DEFAULT_BYPASS@,
    }
}

/// Points the system proxy at the local listener.
pub fn set_proxy_request(platform: Platform) -> (r: ProxyRequest)
    ensures
        platform.spec_is_unix() ==> (r matches ProxyRequest::Apply(s) && s.enable && s.host@
            == LOCAL_PROXY_HOST@ && s.port == LOCAL_PROXY_PORT && s.bypass@ == platform_bypass(
            platform,
        )),
        platform == Platform::Windows ==> (r matches ProxyRequest::Helper(c) && c@
            == windows::helper_view(
            seq!["global"@, windows::proxy_address(), platform_bypass(platform)],
        )),
{
    match platform {
        Platform::Linux => ProxyRequest::Apply(LinuxVpnProxy::set_proxy()),
        Platform::MacOS => ProxyRequest::Apply(MacOSVpnProxy::set_proxy()),
        Platform::Windows => ProxyRequest::Helper(WindowsVpnProxy::set_proxy()),
    }
}

/// Restores direct connections.
pub fn unset_proxy_request(platform: Platform) -> (r: ProxyRequest)
    ensures
        platform.spec_is_unix() ==> r is DisableCurrent,
        platform == Platform::Windows ==> (r matches ProxyRequest::Helper(c) && c@
            == windows::helper_view(seq!["set"@, "1"@])),
{
    match platform {
        Platform::Windows => ProxyRequest::Helper(WindowsVpnProxy::unset_proxy()),
        _ => ProxyRequest::DisableCurrent,
    }
}

/// The elevated launch of the sidecar on `platform`.
pub open spec fn spec_privileged_launch(
    platform: Platform,
    sidecar_path: Seq<char>,
    path: Seq<char>,
    password: Seq<char>,
    bypass_router: Option<bool>,
) -> LaunchView {
    match platform {
        Platform::Linux => LaunchView {
            prepare: seq![],
            child: Some(
                shell_view(
                    sudo_run_script_spec(escaped(password), escaped(sidecar_path), escaped(path)),
                ),
            ),
            elevated: None,
        },
        Platform::MacOS => match bypass_router {
            None => LaunchView { prepare: seq![], child: None, elevated: None },
            Some(on) => LaunchView {
                prepare: if on {
                    seq![macos::forwarding_view(password, true)]
                } else {
                    seq![]
                },
                child: Some(shell_view(macos::tun_launch_script(password, sidecar_path, path))),
                elevated: None,
            },
        },
        Platform::Windows => LaunchView {
            prepare: seq![],
            child: None,
            elevated: Some(windows::tun_launch_view(sidecar_path, path)),
        },
    }
}

/// Builds the elevated launch of the sidecar; `bypass_router` is read on
/// macOS only.
pub fn privileged_launch(
    platform: Platform,
    sidecar_path: &str,
    path: &str,
    password: &str,
    bypass_router: Option<bool>,
) -> (r: PrivilegedLaunch)
    ensures
        r@ == spec_privileged_launch(platform, sidecar_path@, path@, password@, bypass_router),
{
    match platform {
        Platform::Linux => {
            let r = PrivilegedLaunch {
                prepare: Vec::new(),
                child: Some(LinuxVpnProxy::create_privileged_command(sidecar_path, path, password)),
                elevated: None,
            };
            assert(r@.prepare =~= seq![]);
            r
        },
        Platform::MacOS => {
            let r = MacOSVpnProxy::create_privileged_command(
                sidecar_path,
                path,
                password,
                bypass_router,
            );
            assert(r@.prepare =~= spec_privileged_launch(
                platform,
                sidecar_path@,
                path@,
                password@,
                bypass_router,
            ).prepare);
            r
        },
        Platform::Windows => {
            let r = PrivilegedLaunch {
                prepare: Vec::new(),
                child: None,
                elevated: Some(WindowsVpnProxy::create_privileged_command(sidecar_path, path)),
            };
            assert(r@.prepare =~= seq![]);
            r
        },
    }
}

/// How the elevated sidecar is stopped: `commands` run in order, and the first
/// that cannot be started fails the stop; `elevated` goes through the native
/// elevation dialog.
pub struct TunStop {
    pub commands: Vec<CommandSpec>,
    pub elevated: Option<ElevatedCommand>,
}

pub open spec fn spec_tun_stop_commands(platform: Platform, password: Seq<char>) -> Seq<CommandView> {
    match platform {
        Platform::Linux => seq![shell_view(sudo_script_spec(password, "pkill -f sing-box"@))],
        Platform::MacOS => seq![
            shell_view(sudo_script_spec(password, "pkill -15 -f sing-box"@)),
            macos::forwarding_view(password, false),
        ],
        Platform::Windows => seq![],
    }
}

/// Builds the stop of the elevated sidecar on `platform`.
pub fn tun_stop(platform: Platform, password: &str) -> (r: TunStop)
    ensures
        command_views(r.commands@) == spec_tun_stop_commands(platform, password@),
        platform.spec_is_unix() ==> r.elevated is None,
        platform == Platform::Windows ==> (r.elevated matches Some(e) && e@ == (ElevatedView {
            file: "taskkill"@,
            parameters: "/F /IM sing-box.exe"@,
        })),
{
    match platform {
        Platform::Linux => {
            let mut commands: Vec<CommandSpec> = Vec::new();
            commands.push(LinuxVpnProxy::stop_tun_process(password));
            assert(command_views(commands@) =~= spec_tun_stop_commands(platform, password@));
            TunStop { commands, elevated: None }
        },
        Platform::MacOS => TunStop { commands: MacOSVpnProxy::stop_tun_process(password), elevated: None },
        Platform::Windows => {
            let r = TunStop { commands: Vec::new(), elevated: Some(WindowsVpnProxy::stop_tun_process()) };
            assert(command_views(r.commands@) =~= seq![]);
            r
        },
    }
}

} // verus!
