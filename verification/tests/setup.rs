use attacca::bridge_setup::{install_status, install_step, InstallEvent, InstallStep};
use attacca::bridge_setup::{
    device_entry, device_file_name, device_id_from_file_name, device_mode, download_status,
    install_preflight, is_active_output, old_install_name, plan_device_mode, preflight_verdict,
    sort_devices, staging_name, systemctl_outcome, tarball_url, transient_kind, unit_file_text,
    unit_path_str, valid_device_id, version_from_file, wait_step, BridgeSetup, Detection,
    DownloadProgress, ModePlan, SetupError, Transient, WaitStep, TARBALL_PART,
};

#[test]
fn unit_path_escapes_percent() {
    assert_eq!(unit_path_str("/home/a%b/x").ok().unwrap(), "/home/a%%b/x");
    assert_eq!(unit_path_str("/plain/path").ok().unwrap(), "/plain/path");
}

#[test]
fn unit_path_refuses_quotes_backslashes_controls() {
    for bad in ["/a\"b", "/a\\b", "/a\nb", "/a\u{7f}b", "/a\u{85}b"] {
        match unit_path_str(bad) {
            Err(SetupError::Unrepresentable(q)) => assert_eq!(q, format!("{bad:?}")),
            _ => panic!("accepted {bad:?}"),
        }
    }
}

#[test]
fn unit_path_roundtrip_through_systemd_reading() {
    let path = "/data/100%/%%done";
    let escaped = unit_path_str(path).ok().unwrap();
    assert_eq!(escaped.replace("%%", "%"), path);
}

#[test]
fn unit_file_text_is_exact() {
    let t = unit_file_text("/h/attacca/roonbridge", "/h/attacca/roonbridge/data", "/h/attacca/roonbridge/RoonBridge")
        .ok()
        .unwrap();
    let expected = "# Written by Attacca's Roon Bridge setup. Managed by Attacca;\n\
                    # remove via the app or delete together with /h/attacca/roonbridge.\n\
                    [Unit]\n\
                    Description=Roon Bridge (installed by Attacca)\n\
                    \n\
                    [Service]\n\
                    Environment=\"ROON_DATAROOT=/h/attacca/roonbridge/data\"\n\
                    Environment=\"ROON_ID_DIR=/h/attacca/roonbridge/data\"\n\
                    ExecStart=\"/h/attacca/roonbridge/RoonBridge/start.sh\"\n\
                    Restart=on-failure\n\
                    \n\
                    [Install]\n\
                    WantedBy=default.target\n";
    assert_eq!(t, expected);
}

#[test]
fn unit_file_text_reports_first_bad_path() {
    match unit_file_text("/ok", "/bad\"data", "/bad\\prog") {
        Err(SetupError::Unrepresentable(q)) => assert_eq!(q, "\"/bad\\\"data\""),
        _ => panic!("expected refusal"),
    }
}

#[test]
fn tarball_urls_by_arch() {
    assert_eq!(tarball_url("x86_64").ok().unwrap(), "https://download.roonlabs.net/builds/RoonBridge_linuxx64.tar.bz2");
    assert_eq!(tarball_url("aarch64").ok().unwrap(), "https://download.roonlabs.net/builds/RoonBridge_linuxarmv8.tar.bz2");
    assert_eq!(tarball_url("arm").ok().unwrap(), "https://download.roonlabs.net/builds/RoonBridge_linuxarmv7hf.tar.bz2");
    match tarball_url("riscv64") {
        Err(e) => assert_eq!(e.message(), "Roon Bridge is not available for the riscv64 architecture"),
        Ok(_) => panic!("riscv64 has no build"),
    }
}

#[test]
fn preflight_refusals() {
    assert!(matches!(install_preflight(true, false, false), Err(SetupError::Sandboxed)));
    assert!(matches!(install_preflight(false, true, false), Err(SetupError::ForeignBridge)));
    assert!(install_preflight(false, true, true).is_ok());
    assert!(install_preflight(false, false, false).is_ok());
}

#[test]
fn transient_names_are_cleaned() {
    assert_eq!(staging_name(4242), ".extract.tmp-4242");
    assert_eq!(old_install_name(7), "RoonBridge.old-7");
    assert_eq!(transient_kind(&staging_name(4242)), Transient::RemoveDir);
    assert_eq!(transient_kind(&old_install_name(7)), Transient::RemoveDir);
    assert_eq!(transient_kind(TARBALL_PART), Transient::RemoveFile);
    assert_eq!(transient_kind("RoonBridge"), Transient::Keep);
    assert_eq!(transient_kind("data"), Transient::Keep);
}

#[test]
fn preflight_exit_three_is_missing_library() {
    match preflight_verdict(Some(3), "  libasound.so.2\n") {
        Err(e) => assert_eq!(e.message(), "this system is missing a library Roon Bridge needs: libasound.so.2"),
        Ok(_) => panic!("exit 3 must fail"),
    }
    assert!(preflight_verdict(Some(1), "advice").is_ok());
    assert!(preflight_verdict(None, "").is_ok());
}

#[test]
fn waiting_for_the_service() {
    assert_eq!(wait_step(0, true, true), WaitStep::Ready);
    assert_eq!(wait_step(3, false, false), WaitStep::Wait);
    assert_eq!(wait_step(7, false, true), WaitStep::Failed);
    assert_eq!(wait_step(30, true, false), WaitStep::Wait);
    assert_eq!(
        SetupError::ServiceFailed.message(),
        "the service failed to start — check `journalctl --user -u attacca-roonbridge.service`"
    );
    assert_eq!(
        SetupError::AudioServerTimeout.message(),
        "the service started but its audio server never came up — check `journalctl --user -u attacca-roonbridge.service`"
    );
}

#[test]
fn device_ids_and_file_names() {
    assert!(valid_device_id("0aF9"));
    assert!(!valid_device_id(""));
    assert!(!valid_device_id("../x"));
    assert!(!valid_device_id("12g"));
    assert_eq!(device_file_name("ab12"), "device_ab12.json");
    assert_eq!(device_id_from_file_name("device_ab12.json").as_deref(), Some("ab12"));
    assert_eq!(device_id_from_file_name("device_.json").as_deref(), Some(""));
    assert_eq!(device_id_from_file_name("settings.json"), None);
    assert_eq!(device_id_from_file_name("device_ab12.txt"), None);
    assert_eq!(device_id_from_file_name(&device_file_name("c0ffee")).as_deref(), Some("c0ffee"));
}

#[test]
fn device_entries_sorted_by_name() {
    let mut v = vec![
        device_entry("2".to_string(), Some("hw:1".to_string()), Some("USB DAC".to_string())),
        device_entry("1".to_string(), Some("plug:pipewire".to_string()), Some("Built-in".to_string())),
        device_entry("3".to_string(), None, None),
    ];
    assert_eq!(v[1].mode, "pipewire");
    assert_eq!(v[0].mode, "exclusive");
    assert_eq!(v[2].name, "");
    assert_eq!(v[2].device, "");
    sort_devices(&mut v);
    let ids: Vec<&str> = v.iter().map(|d| d.id.as_str()).collect();
    assert_eq!(ids, vec!["3", "1", "2"]);
    let e = device_entry("4".to_string(), Some("hw:2".to_string()), None);
    assert_eq!(e.name, "hw:2");
    assert_eq!(device_mode("plug:pipewire"), "pipewire");
}

#[test]
fn device_mode_plans() {
    assert_eq!(plan_device_mode("pipewire", Some("plug:pipewire".to_string()), false).ok(), Some(ModePlan::AlreadyDesktopMix));
    assert_eq!(plan_device_mode("pipewire", Some("hw:0".to_string()), true).ok(), Some(ModePlan::SaveAndSwitchToDesktopMix));
    assert_eq!(plan_device_mode("pipewire", None, false).ok(), Some(ModePlan::SaveAndSwitchToDesktopMix));
    assert_eq!(plan_device_mode("exclusive", None, true).ok(), Some(ModePlan::RestoreOriginal));
    assert!(matches!(plan_device_mode("exclusive", None, false), Err(SetupError::NoSavedSettings)));
    match plan_device_mode("loud", None, true) {
        Err(e) => assert_eq!(e.message(), "unknown mode: loud"),
        Ok(_) => panic!("unknown mode accepted"),
    }
    assert_eq!(SetupError::BadDeviceId.message(), "bad device id");
}

#[test]
fn version_is_second_line_trimmed() {
    assert_eq!(version_from_file("100683\n  2.71 (build 1683) production \r\nrest\n"), "2.71 (build 1683) production");
    assert_eq!(version_from_file("only one line"), "");
    assert_eq!(version_from_file("first\n"), "");
    assert_eq!(version_from_file("first\nsecond"), "second");
}

#[test]
fn systemctl_results() {
    assert!(is_active_output("active\n"));
    assert!(!is_active_output("inactive"));
    assert_eq!(systemctl_outcome(true, &vec!["daemon-reload"], " ok \n", "").ok().unwrap(), "ok");
    match systemctl_outcome(false, &vec!["enable", "--now", "x.service"], "out", " boom \n") {
        Err(e) => assert_eq!(e.message(), "systemctl --user enable --now x.service failed: boom"),
        Ok(_) => panic!("failure expected"),
    }
    match systemctl_outcome(false, &vec!["stop"], " only stdout ", "  ") {
        Err(e) => assert_eq!(e.message(), "systemctl --user stop failed: only stdout"),
        Ok(_) => panic!("failure expected"),
    }
}

fn detection(version: &str) -> Detection {
    Detection {
        installed_version: version.to_string(),
        service_active: true,
        raat_alive: true,
        pipewire_ok: false,
        sandboxed: false,
    }
}

#[test]
fn one_operation_at_a_time() {
    let mut w = BridgeSetup::new();
    assert!(w.install());
    assert!(w.busy);
    assert!(!w.uninstall());
    assert!(w.set_device_mode("ab".to_string(), "pipewire".to_string()).is_none());
    w.set_status("Unpacking…".to_string());
    let (ok, msg) = w.finish_op(detection("2.71"), Err("download failed".to_string()));
    assert!(!ok);
    assert_eq!(msg, "download failed");
    assert!(!w.busy);
    assert_eq!(w.status_text, "");
    assert_eq!(w.installed_version, "2.71");
    let req = w.set_device_mode("ab".to_string(), "exclusive".to_string()).unwrap();
    assert_eq!(req.device_id, "ab");
    assert_eq!(req.mode, "exclusive");
}

#[test]
fn refresh_applies_detection() {
    let mut w = BridgeSetup::new();
    w.refresh(detection("2.80"));
    assert!(w.service_active && w.raat_alive && !w.pipewire_ok && !w.sandboxed);
    assert_eq!(w.installed_version, "2.80");
    assert!(!w.busy);
}

#[test]
fn download_progress_reports_changes_only() {
    let mut p = DownloadProgress::new();
    assert_eq!(p.on_chunk(10, Some(1000)), Some(1));
    assert_eq!(p.on_chunk(5, Some(1000)), None);
    assert_eq!(p.on_chunk(985, Some(1000)), Some(100));
    assert_eq!(p.got, 1000);
    let mut q = DownloadProgress::new();
    assert_eq!(q.on_chunk(10, None), None);
    assert_eq!(q.on_chunk(10, Some(0)), None);
    assert_eq!(q.got, 20);
    assert_eq!(download_status(42), "Downloading Roon Bridge… 42%");
}

#[test]
fn error_messages() {
    assert_eq!(SetupError::Sandboxed.message(), "the Flatpak sandbox cannot install services on the host");
    assert_eq!(SetupError::NoDataDir.message(), "no XDG data directory");
    assert_eq!(SetupError::NoConfigDir.message(), "no XDG config directory");
    assert_eq!(SetupError::UnexpectedLayout.message(), "unexpected archive layout (no RoonBridge/start.sh)");
    assert!(SetupError::ForeignBridge.message().starts_with("another Roon Bridge already serves"));
    assert!(SetupError::NoSavedSettings.message().starts_with("no saved exclusive-mode settings"));
}

#[test]
fn reported_percentages_rise() {
    let mut p = DownloadProgress::new();
    let mut last = -1;
    for len in [1u64, 3, 0, 7, 250, 1, 1, 400, 337] {
        if let Some(pct) = p.on_chunk(len, Some(1000)) {
            assert!(pct > last, "{pct} after {last}");
            last = pct;
        }
    }
    assert_eq!(last, 100);
}

#[test]
fn install_steps_in_order() {
    let ok = InstallEvent::Finished(true);
    let mut step = InstallStep::Download;
    let mut seen = vec![step];
    while step != InstallStep::Wait(0) {
        step = install_step(step, ok);
        seen.push(step);
    }
    assert_eq!(
        seen,
        vec![
            InstallStep::Download,
            InstallStep::Unpack,
            InstallStep::CheckLayout,
            InstallStep::Preflight,
            InstallStep::StopService,
            InstallStep::MoveAside,
            InstallStep::MoveIn,
            InstallStep::RemoveOld,
            InstallStep::WriteUnit,
            InstallStep::Reload,
            InstallStep::Enable,
            InstallStep::Wait(0),
        ]
    );
    let failed = InstallEvent::Finished(false);
    assert_eq!(install_step(InstallStep::Preflight, failed), InstallStep::Aborted);
    assert_eq!(install_step(InstallStep::StopService, failed), InstallStep::MoveAside);
    assert_eq!(install_step(InstallStep::RemoveOld, failed), InstallStep::WriteUnit);
    assert_eq!(install_step(InstallStep::MoveIn, failed), InstallStep::Aborted);
    let poll = |a, r| InstallEvent::Polled { service_active: a, raat_alive: r };
    assert_eq!(install_step(InstallStep::Wait(3), poll(true, true)), InstallStep::Installed);
    assert_eq!(install_step(InstallStep::Wait(6), poll(false, false)), InstallStep::Wait(7));
    assert_eq!(install_step(InstallStep::Wait(7), poll(false, false)), InstallStep::ServiceFailed);
    assert_eq!(install_step(InstallStep::Wait(58), poll(true, false)), InstallStep::Wait(59));
    assert_eq!(install_step(InstallStep::Wait(59), poll(true, false)), InstallStep::TimedOut);
    assert_eq!(install_step(InstallStep::Installed, failed), InstallStep::Installed);
    assert_eq!(install_status(InstallStep::Download), Some("Downloading Roon Bridge…"));
    assert_eq!(install_status(InstallStep::Wait(0)), Some("Waiting for the audio server…"));
    assert_eq!(install_status(InstallStep::Wait(1)), None);
    assert_eq!(install_status(InstallStep::MoveIn), None);
}
