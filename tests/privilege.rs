use onebox::mode::Platform;
use onebox::privilege::{
    get_current_username, identity_matches, privilege_granted, privilege_probe,
    sudo_output_confirms, PrivilegeProbe, KEYRING_KEY_NAME, KEYRING_SERVICE,
};

#[test]
fn current_username_is_root() {
    assert_eq!(get_current_username(), "root");
}

#[test]
fn keyring_location() {
    assert_eq!(KEYRING_SERVICE, "onebox.oneoh.cloud");
    assert_eq!(KEYRING_KEY_NAME, "privilege_password");
}

#[test]
fn probes_per_platform() {
    assert!(matches!(privilege_probe(Platform::Windows, "pw", "me"), PrivilegeProbe::Fixed(false)));
    assert!(matches!(privilege_probe(Platform::Linux, "", "me"), PrivilegeProbe::Fixed(false)));
    match privilege_probe(Platform::Linux, "pw", "me") {
        PrivilegeProbe::SudoWhoami { command, stdin } => {
            assert_eq!(command.program, "sudo");
            assert_eq!(command.args, vec!["-S", "whoami"]);
            assert_eq!(stdin, "pw\n");
        }
        _ => panic!("Linux asks sudo"),
    }
    match privilege_probe(Platform::MacOS, "pw", "me") {
        PrivilegeProbe::AppleScript { command } => {
            assert_eq!(command.program, "osascript");
            assert_eq!(
                command.args,
                vec![
                    "-e",
                    "do shell script \"exit 0\" user name \"me\" password \"pw\" with administrator privileges"
                ]
            );
        }
        _ => panic!("macOS asks AppleScript"),
    }
}

#[test]
fn sudo_output_is_trimmed_before_comparing() {
    assert!(sudo_output_confirms("root\n", "root"));
    assert!(sudo_output_confirms("  root \n", "root"));
    assert!(!sudo_output_confirms("alice\n", "root"));
    assert!(!sudo_output_confirms("", "root"));
    assert!(identity_matches("root", "root"));
    assert!(!identity_matches("root\n", "root"));
}

#[test]
fn privilege_outcomes() {
    let probe = privilege_probe(Platform::Linux, "pw", "me");
    assert!(privilege_granted(&probe, "root", Some((true, "root\n".to_string()))));
    assert!(!privilege_granted(&probe, "root", Some((true, "me\n".to_string()))));
    assert!(!privilege_granted(&probe, "root", None));
    let mac = privilege_probe(Platform::MacOS, "pw", "me");
    assert!(privilege_granted(&mac, "root", Some((true, String::new()))));
    assert!(!privilege_granted(&mac, "root", Some((false, String::new()))));
    assert!(!privilege_granted(&PrivilegeProbe::Fixed(false), "root", Some((true, "root".to_string()))));
}
