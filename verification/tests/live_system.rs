use sentinel::system_info;
use sysinfo::{System, SystemExt};

#[test]
fn signals_on_the_live_driver_gives_31_rows() {
    let mut sys = System::new();
    let mut out: Vec<String> = Vec::new();
    let exit = system_info("signals", &mut sys, &mut out);
    assert!(!exit);
    assert_eq!(out.len(), 31);
    assert_eq!(out[0], " 1:Hangup");
    assert_eq!(out[30], "31:Sys");
}

#[test]
fn quit_on_the_live_driver_exits_without_output() {
    let mut sys = System::new();
    let mut out: Vec<String> = Vec::new();
    let exit = system_info("quit", &mut sys, &mut out);
    assert!(exit);
    assert!(out.is_empty());
}

#[test]
fn memory_on_an_unrefreshed_system_is_all_zero() {
    let mut sys = System::new();
    let mut out: Vec<String> = Vec::new();
    let exit = system_info("memory", &mut sys, &mut out);
    assert!(!exit);
    assert_eq!(
        out,
        vec![
            "total memory: 0 KB",
            "used memory : 0 KB",
            "total swap  : 0 KB",
            "used swap   : 0 KB"
        ]
    );
}

#[test]
fn unknown_command_on_the_live_driver_falls_through() {
    let mut sys = System::new();
    let mut out: Vec<String> = Vec::new();
    let exit = system_info("frobnicate", &mut sys, &mut out);
    assert!(!exit);
    assert_eq!(
        out,
        vec!["\"frobnicate\": Unknown command. Enter 'help' if you want to get the commands' list."]
    );
}

#[test]
fn refresh_missing_pid_on_the_live_driver_reports_failure() {
    let mut sys = System::new();
    let mut out: Vec<String> = Vec::new();
    // far above the kernel's highest assignable PID
    let exit = system_info("refresh 999999999", &mut sys, &mut out);
    assert!(!exit);
    assert_eq!(
        out,
        vec![
            "Getting process' information...",
            "Process `999999999` couldn't be updated..."
        ]
    );
}
