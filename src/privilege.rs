//! The privilege verifier: whether a credential grants administrative rights.
//! It builds the elevation probe and judges its outcome; it stores nothing.

use vstd::prelude::*;
use crate::mode::Platform;
use crate::text::{trim_whitespace, trimmed};
use crate::vpn::{CommandSpec, CommandView};

verus! {

/// Service under which the privilege credential is kept in the secret store.
pub const KEYRING_SERVICE: &'static str = "onebox.oneoh.cloud";

/// Key of the privilege credential in the secret store.
pub const KEYRING_KEY_NAME: &'static str = "privilege_password";

/// The identity an elevation probe is compared against.
pub trait PrivilegeHelper {
    fn get_current_user() -> String;
}

/// The helper of the platforms that elevate through `sudo`.
pub struct PlatformPrivilegeHelper;

impl PrivilegeHelper for PlatformPrivilegeHelper {
    /// `sudo whoami` reports the superuser when the credential is accepted.
    fn get_current_user() -> (r: String)
        ensures
            r@ == "root"@,
    {
        String::from_str("root")
    }
}

/// The identity that a successful `sudo` elevation reports.
pub fn get_current_username() -> (r: String)
    ensures
        r@ == "root"@,
{
    PlatformPrivilegeHelper::get_current_user()
}

/// How a credential is put to the test.
pub enum PrivilegeProbe {
    /// Decided without running anything.
    Fixed(bool),
    /// Run `command`, writing `stdin` to it; the credential holds if the
    /// trimmed output is the expected identity.
    SudoWhoami { command: CommandSpec, stdin: String },
    /// Run `command`; the credential holds if it exits successfully.
    AppleScript { command: CommandSpec },
}

/// `sudo -S whoami`.
pub open spec fn sudo_whoami_view() -> CommandView {
    CommandView { program: "sudo"@, args: seq!["-S"@, "whoami"@], bundled: false }
}

/// The AppleScript that asks for administrator rights with the credential.
pub open spec fn apple_script(username: Seq<char>, password: Seq<char>) -> Seq<char> {
    "do shell script \"exit 0\" user name \""@ + username + "\" password \""@ + password
        + "\" with administrator privileges"@
}

pub open spec fn osascript_view(script: Seq<char>) -> CommandView {
    CommandView { program: "osascript"@, args: seq!["-e"@, script], bundled: false }
}

fn two_args(program: &str, a: &str, b: String) -> (r: CommandSpec)
    ensures
        r@ == (CommandView { program: program@, args: seq![a@, b@], bundled: false }),
{
    let mut args: Vec<String> = Vec::new();
    args.push(String::from_str(a));
    args.push(b);
    let r = CommandSpec { program: String::from_str(program), args, bundled: false };
    assert(r@.args =~= seq![a@, b@]);
    r
}

/// The probe for `password`. Windows reports elevation through its own
/// dialog, so there is nothing to check; an empty credential never holds.
/// `username` is the identity the macOS dialog is asked for.
pub fn privilege_probe(platform: Platform, password: &str, username: &str) -> (r: PrivilegeProbe)
    ensures
        platform == Platform::Windows ==> r == PrivilegeProbe::Fixed(false),
        platform.spec_is_unix() && password@.len() == 0 ==> r == PrivilegeProbe::Fixed(false),
        platform == Platform::Linux && password@.len() > 0 ==> (r matches PrivilegeProbe::SudoWhoami {
            command,
            stdin,
        } && command@ == sudo_whoami_view() && stdin@ == password@ + "\n"@),
        platform == Platform::MacOS && password@.len() > 0 ==> (r matches PrivilegeProbe::AppleScript {
            command,
        } && command@ == osascript_view(apple_script(username@, password@))),
{
    if !platform.is_unix() || password.unicode_len() == 0 {
        return PrivilegeProbe::Fixed(false);
    }
    match platform {
        Platform::MacOS => {
            let script = String::from_str("do shell script \"exit 0\" user name \"").concat(
                username,
            ).concat("\" password \"").concat(password).concat(
                "\" with administrator privileges",
            );
            PrivilegeProbe::AppleScript { command: two_args("osascript", "-e", script) }
        },
        _ => PrivilegeProbe::SudoWhoami {
            command: two_args("sudo", "-S", String::from_str("whoami")),
            stdin: String::from_str(password).concat("\n"),
        },
    }
}

/// Whether an already trimmed `whoami` output names the expected identity.
pub fn identity_matches(trimmed_output: &str, expected: &str) -> (r: bool)
    ensures
        r == (trimmed_output@ == expected@),
{
    let a = String::from_str(trimmed_output);
    let b = String::from_str(expected);
    a == b
}

/// Whether the output of `sudo whoami` names the expected identity.
pub fn sudo_output_confirms(stdout: &str, expected: &str) -> (r: bool)
    ensures
        r == (trimmed(stdout@) == expected@),
{
    let t = trim_whitespace(stdout);
    identity_matches(t.as_str(), expected)
}

/// What a probe concludes. `outcome` is `None` when the helper could not be
/// run, else its success flag and its output; a helper that could not run
/// means no rights.
pub fn privilege_granted(probe: &PrivilegeProbe, expected_user: &str, outcome: Option<(bool, String)>) -> (r:
    bool)
    ensures
        probe matches PrivilegeProbe::Fixed(b) ==> r == b,
        !(probe is Fixed) && outcome is None ==> !r,
        probe is SudoWhoami ==> (outcome matches Some((_, out)) ==> r == (trimmed(out@)
            == expected_user@)),
        probe is AppleScript ==> (outcome matches Some((ok, _)) ==> r == ok),
{
    match probe {
        PrivilegeProbe::Fixed(b) => *b,
        PrivilegeProbe::SudoWhoami { .. } => match outcome {
            None => false,
            Some((_, out)) => sudo_output_confirms(out.as_str(), expected_user),
        },
        PrivilegeProbe::AppleScript { .. } => match outcome {
            None => false,
            Some((ok, _)) => ok,
        },
    }
}

} // verus!
