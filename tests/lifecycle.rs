use onebox::app_status::{AppData, LogType};
use onebox::lifecycle::{
    authorization_header, finish_start, get_password_for_mode, needs_stored_password,
    plan_system_start, plan_tun_start, reload_outcome, liveness_start, liveness_after_connect,
    liveness_after_request, ProbeStep,
    tun_stop_for, ObserverAction, OutputEvent, OutputObserver, ProcessRecord, ReloadPlan,
    StartCompletion, StopPlan, TerminationAction, ELEVATED_SETTLE_MS, MANAGED_SETTLE_MS,
    REQUIRE_PRIVILEGE,
};
use onebox::mode::{Platform, ProxyMode};
use onebox::vpn::{linux, set_proxy_request, unset_proxy_request, ProxyRequest};

#[test]
fn default_mode_is_system_proxy() {
    assert_eq!(ProxyMode::default(), ProxyMode::SystemProxy);
}

#[test]
fn tun_start_without_credential_asks_for_one() {
    assert!(needs_stored_password(Platform::Linux, ProxyMode::TunProxy));
    let r = get_password_for_mode(Platform::Linux, ProxyMode::TunProxy, "");
    assert_eq!(r, Err(REQUIRE_PRIVILEGE.to_string()));
    assert_eq!(r, Err("REQUIRE_PRIVILEGE".to_string()));
    // The start stops here: nothing was recorded, so nothing was spawned.
    let record: ProcessRecord<u32> = ProcessRecord::new();
    assert!(record.current_mode.is_none() && record.child.is_none());
}

#[test]
fn credentials_per_mode_and_platform() {
    assert_eq!(
        get_password_for_mode(Platform::MacOS, ProxyMode::TunProxy, "secret"),
        Ok("secret".to_string())
    );
    assert_eq!(get_password_for_mode(Platform::Linux, ProxyMode::SystemProxy, "secret"), Ok(String::new()));
    assert_eq!(get_password_for_mode(Platform::Windows, ProxyMode::TunProxy, ""), Ok(String::new()));
    assert!(!needs_stored_password(Platform::Windows, ProxyMode::TunProxy));
}

#[test]
fn system_proxy_start_sets_the_proxy_once() {
    let mut record: ProcessRecord<u32> = ProcessRecord::new();
    let password = get_password_for_mode(Platform::Linux, ProxyMode::SystemProxy, "").unwrap();
    let plan = plan_system_start("/tmp/fake.json");
    let child = plan.child.as_ref().expect("the sidecar is spawned");
    assert_eq!(child.program, "sing-box");
    assert!(child.bundled);
    assert_eq!(child.args, vec!["run", "-c", "/tmp/fake.json", "--disable-color"]);
    assert!(record.begin_session(ProxyMode::SystemProxy, "/tmp/fake.json".to_string(), password, Some(7)).is_none());

    let mut set_calls = Vec::new();
    if plan.proxy_on {
        set_calls.push(set_proxy_request(Platform::Linux));
    }
    assert_eq!(set_calls.len(), 1);
    match &set_calls[0] {
        ProxyRequest::Apply(s) => {
            assert!(s.enable);
            assert_eq!(s.host, "127.0.0.1");
            assert_eq!(s.port, 6789);
            assert_eq!(s.bypass, linux::DEFAULT_BYPASS);
        }
        _ => panic!("Linux writes the settings"),
    }
    let done = finish_start(&plan, Ok(()));
    assert_eq!(done, StartCompletion::Settle { delay_ms: MANAGED_SETTLE_MS });
    assert_eq!(MANAGED_SETTLE_MS, 1500);
}

#[test]
fn failed_proxy_step_rolls_back() {
    let plan = plan_system_start("/tmp/c.json");
    let done = finish_start(&plan, Err("no gsettings".to_string()));
    assert_eq!(done, StartCompletion::RollBack { error: "no gsettings".to_string() });
}

#[test]
fn tun_start_clears_the_system_proxy() {
    let plan = plan_tun_start(Platform::Linux, "/a/sing-box", "/c.json", "pw", None);
    assert!(!plan.proxy_on);
    assert!(plan.child.is_some());
    assert_eq!(plan.settle_ms, MANAGED_SETTLE_MS);
    assert!(matches!(unset_proxy_request(Platform::Linux), ProxyRequest::DisableCurrent));
    let win = plan_tun_start(Platform::Windows, "C:\\sing-box.exe", "C:\\c.json", "", None);
    assert!(win.child.is_none() && win.elevated.is_some());
    assert_eq!(win.settle_ms, ELEVATED_SETTLE_MS);
    assert_eq!(ELEVATED_SETTLE_MS, 1000);
}

#[test]
fn system_start_then_stop_leaves_record_idle() {
    let mut record: ProcessRecord<u32> = ProcessRecord::new();
    record.begin_session(ProxyMode::SystemProxy, "/c.json".to_string(), String::new(), Some(42));
    assert_eq!(record.current_mode, Some(ProxyMode::SystemProxy));
    match record.take_for_stop() {
        StopPlan::SystemProxy { child } => assert_eq!(child, Some(42)),
        _ => panic!("a system-proxy session clears the proxy on stop"),
    }
    assert!(record.child.is_none());
    assert!(record.current_mode.is_none());
    assert!(record.tun_password.is_none());
    assert!(record.config_path.is_none());
    assert!(matches!(record.take_for_stop(), StopPlan::Idle));
}

#[test]
fn tun_stop_clears_the_credential() {
    let mut record: ProcessRecord<u32> = ProcessRecord::new();
    record.begin_session(ProxyMode::TunProxy, "/c.json".to_string(), "hunter2".to_string(), None);
    assert_eq!(record.tun_password.as_deref(), Some("hunter2"));
    let plan = record.take_for_stop();
    assert!(record.tun_password.is_none());
    match plan {
        StopPlan::TunProxy { password } => {
            let stop = tun_stop_for(Platform::Linux, password).ok().expect("a credential is held");
            assert_eq!(stop.commands[0].args[1], "echo 'hunter2' | sudo -S pkill -f sing-box");
        }
        _ => panic!("a TUN session is stopped with its credential"),
    }
}

#[test]
fn tun_stop_without_credential_fails() {
    assert!(tun_stop_for(Platform::Linux, None).is_err());
}

#[test]
fn second_start_supersedes_the_first() {
    let mut record: ProcessRecord<u32> = ProcessRecord::new();
    record.begin_session(ProxyMode::SystemProxy, "/a.json".to_string(), String::new(), Some(1));
    let first = record.generation;
    let superseded = record.begin_session(ProxyMode::SystemProxy, "/b.json".to_string(), String::new(), Some(2));
    assert_eq!(superseded, Some(1));
    let second = record.generation;
    assert_ne!(first, second);
    assert_eq!(record.on_terminated(ProxyMode::SystemProxy, first, Some(0)), TerminationAction::Skip);
    assert_eq!(record.child, Some(2));
    assert_eq!(record.config_path.as_deref(), Some("/b.json"));
    record.take_for_stop();
    assert_eq!(record.on_terminated(ProxyMode::SystemProxy, first, Some(0)), TerminationAction::Skip);
    assert!(record.current_mode.is_none());
}

#[test]
fn termination_of_another_mode_leaves_record_untouched() {
    let mut record: ProcessRecord<u32> = ProcessRecord::new();
    record.begin_session(ProxyMode::TunProxy, "/c.json".to_string(), "pw".to_string(), Some(5));
    let g = record.generation;
    assert_eq!(record.on_terminated(ProxyMode::SystemProxy, g, Some(1)), TerminationAction::Skip);
    assert_eq!(record.current_mode, Some(ProxyMode::TunProxy));
    assert_eq!(record.child, Some(5));
    assert_eq!(record.tun_password.as_deref(), Some("pw"));
    assert_eq!(record.generation, g);
}

#[test]
fn crash_in_system_proxy_mode_cleans_up_once() {
    let mut record: ProcessRecord<u32> = ProcessRecord::new();
    record.begin_session(ProxyMode::SystemProxy, "/c.json".to_string(), String::new(), Some(9));
    let mut observer = OutputObserver::new(ProxyMode::SystemProxy, record.generation);
    let mut unset_calls = 0;
    let mut emitted: Vec<Option<i32>> = Vec::new();
    let events = vec![
        OutputEvent::Stderr("starting".to_string()),
        OutputEvent::Terminated(Some(1)),
        OutputEvent::Terminated(Some(1)),
        OutputEvent::Stderr("late".to_string()),
    ];
    let mut logs = AppData::new();
    for event in events {
        match observer.observe(event) {
            ObserverAction::Append(t, line) => logs.write(line, t),
            ObserverAction::Terminated(code) => {
                match record.on_terminated(observer.mode, observer.generation, code) {
                    TerminationAction::Cleanup { unset_system_proxy, exit_code } => {
                        if unset_system_proxy {
                            unset_calls += 1;
                        }
                        emitted.push(exit_code);
                    }
                    TerminationAction::Skip => {}
                }
            }
            ObserverAction::LogOnly => {}
        }
    }
    assert_eq!(unset_calls, 1);
    assert_eq!(emitted, vec![Some(1)]);
    assert!(record.current_mode.is_none() && record.child.is_none() && record.config_path.is_none());
    assert_eq!(logs.read(LogType::Info), "starting");
}

#[test]
fn observer_classifies_lines() {
    let mut o = OutputObserver::new(ProxyMode::TunProxy, 3);
    assert_eq!(o.observe(OutputEvent::Stdout("a".to_string())), ObserverAction::Append(LogType::Info, "a".to_string()));
    assert_eq!(o.observe(OutputEvent::Error("e".to_string())), ObserverAction::Append(LogType::Error, "e".to_string()));
    assert_eq!(o.observe(OutputEvent::Other), ObserverAction::LogOnly);
    assert!(!o.terminated);
}

#[test]
fn reload_tun_in_system_proxy_mode_is_refused() {
    let mut record: ProcessRecord<u32> = ProcessRecord::new();
    record.begin_session(ProxyMode::SystemProxy, "/c.json".to_string(), String::new(), Some(1));
    match record.plan_reload(Platform::Linux, true) {
        Err(e) => assert_eq!(e, "current mode is not TUN mode"),
        Ok(_) => panic!("no signal may be sent"),
    }
    match record.plan_reload(Platform::Linux, false) {
        Ok(ReloadPlan::Signal { command, with_sudo }) => {
            assert!(!with_sudo);
            assert_eq!(command.program, "pkill");
            assert_eq!(command.args, vec!["-HUP", "sing-box"]);
        }
        _ => panic!("a system-proxy session is signalled directly"),
    }
}

#[test]
fn reload_errors_and_plans() {
    let mut record: ProcessRecord<u32> = ProcessRecord::new();
    assert_eq!(record.plan_reload(Platform::Linux, false).err(), Some("No running process found".to_string()));
    record.begin_session(ProxyMode::TunProxy, "C:\\c.json".to_string(), "pw".to_string(), None);
    assert_eq!(
        record.plan_reload(Platform::MacOS, false).err(),
        Some("current mode is not System Proxy mode".to_string())
    );
    match record.plan_reload(Platform::MacOS, true) {
        Ok(ReloadPlan::Signal { command, with_sudo }) => {
            assert!(with_sudo);
            assert_eq!(command.args, vec!["-c", "echo 'pw' | sudo -S pkill -HUP sing-box"]);
        }
        _ => panic!("a TUN session is signalled through sudo"),
    }
    match record.plan_reload(Platform::Windows, true) {
        Ok(ReloadPlan::Restart { config_path }) => assert_eq!(config_path, "C:\\c.json"),
        _ => panic!("Windows restarts the sidecar"),
    }
}

#[test]
fn reload_outcomes() {
    assert_eq!(reload_outcome(false, Ok((true, String::new()))), Ok("Configuration reloaded successfully".to_string()));
    assert_eq!(
        reload_outcome(false, Ok((false, "no process".to_string()))),
        Err("Failed to reload config: no process".to_string())
    );
    assert_eq!(
        reload_outcome(true, Err("denied".to_string())),
        Err("Failed to send SIGHUP signal with sudo: denied".to_string())
    );
    assert_eq!(reload_outcome(false, Err("x".to_string())), Err("Failed to send SIGHUP signal: x".to_string()));
}

#[test]
fn closed_port_ends_the_probe_at_once() {
    match liveness_start() {
        ProbeStep::Connect { addr, timeout_ms } => {
            assert_eq!(addr, "127.0.0.1:9191");
            assert_eq!(timeout_ms, 100);
        }
        _ => panic!("the probe starts with a connection attempt"),
    }
    assert!(matches!(liveness_after_connect(false, "s3"), ProbeStep::Done(false)));
}

#[test]
fn open_port_asks_the_version_endpoint() {
    match liveness_after_connect(true, "s3") {
        ProbeStep::Request { url, authorization, timeout_ms } => {
            assert_eq!(url, "http://127.0.0.1:9191/version");
            assert_eq!(authorization, "Bearer s3");
            assert_eq!(timeout_ms, 1000);
        }
        _ => panic!("an open port leads to the request"),
    }
    assert_eq!(authorization_header(""), "Bearer ");
    assert!(liveness_after_request(Some(200)));
    assert!(!liveness_after_request(Some(401)));
    assert!(!liveness_after_request(None));
}

#[test]
fn generation_wraps_around() {
    let mut record: ProcessRecord<u32> = ProcessRecord::new();
    record.generation = u64::MAX;
    record.begin_session(ProxyMode::SystemProxy, "/c.json".to_string(), String::new(), None);
    assert_eq!(record.generation, 0);
}
