use sentinel::{
    dispatch_line, parse_pid, parse_u64, report_kill, report_refresh_process, signal_lookup,
    signal_name, uptime_line, Effect, NetRec, ProcessRec, SignalError, Snapshot,
};

fn empty_snapshot() -> Snapshot {
    Snapshot {
        processes: Vec::new(),
        physical_cores: None,
        global_cpu_usage: String::from("0"),
        cpu_details: Vec::new(),
        total_memory: 0,
        used_memory: 0,
        total_swap: 0,
        used_swap: 0,
        frequency: 0,
        vendor_id: String::new(),
        brand: String::new(),
        load_one: String::from("0"),
        load_five: String::from("0"),
        load_fifteen: String::from("0"),
        components: Vec::new(),
        disks: Vec::new(),
        networks: Vec::new(),
        users: Vec::new(),
        boot_time: 0,
        uptime: 0,
        self_pid: String::from("1"),
        sys_name: None,
        kernel_version: None,
        os_version: None,
        long_os_version: None,
        host_name: None,
    }
}

fn proc_rec(pid: u64, name: &str) -> ProcessRec {
    ProcessRec {
        pid,
        name: String::from(name),
        status: String::from("Run"),
        detail: format!("process {} {}", pid, name),
    }
}

#[test]
fn signal_table_is_a_bijection_over_1_to_31() {
    let mut names: Vec<String> = Vec::new();
    for n in 1..=31u64 {
        let code = signal_lookup(n).unwrap();
        let name = signal_name(&code);
        assert!(!names.contains(&name), "duplicate identity {}", name);
        names.push(name);
    }
    assert_eq!(names.len(), 31);
    assert_eq!(names[0], "Hangup");
    assert_eq!(names[30], "Sys");
}

#[test]
fn signal_lookup_rejects_0_and_32() {
    assert_eq!(signal_lookup(0), Err(SignalError::OutOfRange));
    assert_eq!(signal_lookup(32), Err(SignalError::OutOfRange));
    assert_eq!(signal_lookup(u64::MAX), Err(SignalError::OutOfRange));
}

#[test]
fn exit_iff_trimmed_quit_or_exit() {
    let snap = empty_snapshot();
    assert!(dispatch_line("quit", &snap).should_exit);
    assert!(dispatch_line("exit", &snap).should_exit);
    assert!(dispatch_line("  quit \n", &snap).should_exit);
    assert!(dispatch_line("\u{a0}quit\u{2028}", &snap).should_exit);
    assert!(!dispatch_line("Quit", &snap).should_exit);
    assert!(!dispatch_line("quitt", &snap).should_exit);
    assert!(!dispatch_line("quit now", &snap).should_exit);
    assert!(!dispatch_line("help", &snap).should_exit);
    assert!(!dispatch_line("", &snap).should_exit);
}

#[test]
fn quit_writes_nothing_and_asks_nothing() {
    let snap = empty_snapshot();
    let r = dispatch_line("quit", &snap);
    assert!(r.lines.is_empty());
    assert_eq!(r.effect, Effect::Idle);
}

#[test]
fn uptime_decomposition_is_exact() {
    assert_eq!(
        uptime_line(200000),
        "2 days 7 hours 33 minutes (200000 seconds in total)"
    );
    assert_eq!(uptime_line(0), "0 days 0 hours 0 minutes (0 seconds in total)");
    assert_eq!(
        uptime_line(86400 + 3600 + 60),
        "1 days 1 hours 1 minutes (90060 seconds in total)"
    );
}

#[test]
fn uptime_command_reports_raw_seconds_unchanged() {
    let mut snap = empty_snapshot();
    snap.uptime = 359999;
    let r = dispatch_line("uptime", &snap);
    assert_eq!(r.lines.len(), 1);
    assert_eq!(r.lines[0], "4 days 3 hours 59 minutes (359999 seconds in total)");
}

#[test]
fn kill_signal_out_of_range_never_delivers() {
    let mut snap = empty_snapshot();
    snap.processes.push(proc_rec(123, "init"));
    for bad in ["0", "32", "40", "-5", "99999999999999999999999"] {
        let r = dispatch_line(&format!("kill 123 {}", bad), &snap);
        assert_eq!(r.effect, Effect::Idle, "signal {}", bad);
        assert_eq!(
            r.lines,
            vec![
                "Signal must be between 0 and 32 ! See the signals list with the signals command"
            ],
            "signal {}",
            bad
        );
    }
}

#[test]
fn kill_9999_9_reports_pid_not_found_not_range() {
    let snap = empty_snapshot();
    let r = dispatch_line("kill 9999 9", &snap);
    assert_eq!(r.lines, vec!["pid not found"]);
    assert_eq!(r.effect, Effect::Idle);
}

#[test]
fn kill_present_pid_with_valid_signal_requests_delivery() {
    let mut snap = empty_snapshot();
    snap.processes.push(proc_rec(123, "init"));
    let r = dispatch_line("kill 123 9", &snap);
    assert!(r.lines.is_empty());
    assert_eq!(r.effect, Effect::Kill(123, 9));
    assert!(!r.should_exit);
}

#[test]
fn kill_accepts_plus_signed_numbers_like_a_platform_parse() {
    let mut snap = empty_snapshot();
    snap.processes.push(proc_rec(123, "init"));
    let r = dispatch_line("kill +123 +9", &snap);
    assert!(r.lines.is_empty());
    assert_eq!(r.effect, Effect::Kill(123, 9));
    let r = dispatch_line("kill 123 +40", &snap);
    assert_eq!(
        r.lines,
        vec!["Signal must be between 0 and 32 ! See the signals list with the signals command"]
    );
    assert_eq!(r.effect, Effect::Idle);
}

#[test]
fn pids_beyond_the_platform_width_are_no_pids() {
    let mut snap = empty_snapshot();
    snap.processes.push(proc_rec(1, "init"));
    // show: the token falls back to a name query, which matches nothing
    let r = dispatch_line("show 3000000000", &snap);
    assert!(r.lines.is_empty());
    // refresh: no token parses as a PID
    let r = dispatch_line("refresh 3000000000", &snap);
    assert_eq!(
        r.lines,
        vec!["Getting process' information...", "Invalid [pid] received..."]
    );
    // kill: the pid token does not parse
    let r = dispatch_line("kill 3000000000 9", &snap);
    assert_eq!(
        r.lines,
        vec![
            "kill command takes the pid and a signal number in parameter!",
            "example: kill 1254 9"
        ]
    );
}

#[test]
fn parse_pid_accepts_a_plus_sign_within_the_platform_width() {
    assert_eq!(parse_pid("5"), Some(5));
    assert_eq!(parse_pid("+5"), Some(5));
    assert_eq!(parse_pid("2147483647"), Some(2147483647));
    assert_eq!(parse_pid("2147483648"), None);
    assert_eq!(parse_pid("-5"), None);
    assert_eq!(parse_pid("+"), None);
    assert_eq!(parse_pid("++5"), None);
    assert_eq!(parse_pid(""), None);
}

#[test]
fn kill_wrong_arity_or_bad_numbers_gives_usage() {
    let snap = empty_snapshot();
    for bad in ["kill 123", "kill 1 2 3 4", "kill abc 9", "kill 123 x9"] {
        let r = dispatch_line(bad, &snap);
        assert_eq!(
            r.lines,
            vec![
                "kill command takes the pid and a signal number in parameter!",
                "example: kill 1254 9"
            ],
            "input {}",
            bad
        );
        assert_eq!(r.effect, Effect::Idle);
    }
    // `kill` with no space is not the kill pattern at all
    let r = dispatch_line("kill", &snap);
    assert_eq!(
        r.lines,
        vec!["\"kill\": Unknown command. Enter 'help' if you want to get the commands' list."]
    );
}

#[test]
fn kill_outcome_lines_cover_every_result() {
    assert_eq!(report_kill(&None), "pid not found");
    assert_eq!(report_kill(&Some(None)), "kill: signal not supported on this platform");
    assert_eq!(report_kill(&Some(Some(true))), "kill: true");
    assert_eq!(report_kill(&Some(Some(false))), "kill: false");
}

#[test]
fn show_without_argument_gives_the_usage_hint() {
    let snap = empty_snapshot();
    let r = dispatch_line("show", &snap);
    assert_eq!(r.lines, vec!["'show' command expects a pid number or a process name"]);
    assert_eq!(r.effect, Effect::Idle);
}

#[test]
fn show_with_too_many_arguments_gives_the_arity_hint() {
    let snap = empty_snapshot();
    let r = dispatch_line("show a b", &snap);
    assert_eq!(
        r.lines,
        vec!["show command takes a pid or a name in parameter!", "example: show 1254"]
    );
}

#[test]
fn show_missing_pid_reports_not_found_and_asks_nothing() {
    let mut snap = empty_snapshot();
    snap.processes.push(proc_rec(1, "init"));
    let r = dispatch_line("show 4242", &snap);
    assert_eq!(r.lines, vec!["pid \"4242\" not found"]);
    assert_eq!(r.effect, Effect::Idle);
    let r = dispatch_line("show +4242", &snap);
    assert_eq!(r.lines, vec!["pid \"4242\" not found"]);
}

#[test]
fn show_present_pid_prints_the_detail() {
    let mut snap = empty_snapshot();
    snap.processes.push(proc_rec(7, "sshd"));
    let r = dispatch_line("show 7", &snap);
    assert_eq!(r.lines, vec!["process 7 sshd"]);
}

#[test]
fn show_by_name_prints_a_header_per_match_in_order() {
    let mut snap = empty_snapshot();
    snap.processes.push(proc_rec(1, "worker"));
    snap.processes.push(proc_rec(2, "other"));
    snap.processes.push(proc_rec(3, "worker"));
    let r = dispatch_line("show worker", &snap);
    assert_eq!(
        r.lines,
        vec![
            "==== worker ====",
            "process 1 worker",
            "==== worker ====",
            "process 3 worker"
        ]
    );
}

#[test]
fn show_by_name_without_match_prints_nothing() {
    let snap = empty_snapshot();
    let r = dispatch_line("show ghost", &snap);
    assert!(r.lines.is_empty());
    assert_eq!(r.effect, Effect::Idle);
}

#[test]
fn refresh_pid_is_selective_and_reports_the_provider_result() {
    let snap = empty_snapshot();
    let r = dispatch_line("refresh 123", &snap);
    assert_eq!(r.lines, vec!["Getting process' information..."]);
    assert_eq!(r.effect, Effect::RefreshProcess(123));
    assert_eq!(report_refresh_process(123, true), "Process `123` updated successfully");
    assert_eq!(report_refresh_process(123, false), "Process `123` couldn't be updated...");
}

#[test]
fn refresh_takes_the_first_token_that_parses() {
    let snap = empty_snapshot();
    let r = dispatch_line("refresh abc 55 77", &snap);
    assert_eq!(r.effect, Effect::RefreshProcess(55));
}

#[test]
fn refresh_with_no_parseable_pid_is_invalid() {
    let snap = empty_snapshot();
    let r = dispatch_line("refresh abc", &snap);
    assert_eq!(
        r.lines,
        vec!["Getting process' information...", "Invalid [pid] received..."]
    );
    assert_eq!(r.effect, Effect::Idle);
}

#[test]
fn refresh_alone_asks_for_the_full_refresh() {
    let snap = empty_snapshot();
    let r = dispatch_line("refresh", &snap);
    assert_eq!(r.lines, vec!["Getting processes' information...", "Done."]);
    assert_eq!(r.effect, Effect::RefreshAll);
}

#[test]
fn refresh_disks_and_users_are_selective() {
    let snap = empty_snapshot();
    let r = dispatch_line("refresh_disks", &snap);
    assert_eq!(r.lines, vec!["Refreshing disk list...", "Done."]);
    assert_eq!(r.effect, Effect::RefreshDisks);
    let r = dispatch_line("refresh_users", &snap);
    assert_eq!(r.lines, vec!["Refreshing user list...", "Done."]);
    assert_eq!(r.effect, Effect::RefreshUsers);
}

#[test]
fn unknown_verbs_fall_through_and_ask_nothing() {
    let snap = empty_snapshot();
    for bad in ["frobnicate", "HELP", "refreshx", "showme", ""] {
        let r = dispatch_line(bad, &snap);
        assert_eq!(
            r.lines,
            vec![format!(
                "\"{}\": Unknown command. Enter 'help' if you want to get the commands' list.",
                bad
            )],
            "input {}",
            bad
        );
        assert_eq!(r.effect, Effect::Idle);
        assert!(!r.should_exit);
    }
}

#[test]
fn signals_listing_has_31_numbered_distinct_rows() {
    let snap = empty_snapshot();
    let r = dispatch_line("signals", &snap);
    assert_eq!(r.lines.len(), 31);
    assert_eq!(r.lines[0], " 1:Hangup");
    assert_eq!(r.lines[1], " 2:Interrupt");
    assert_eq!(r.lines[8], " 9:Kill");
    assert_eq!(r.lines[9], "10:User1");
    assert_eq!(r.lines[30], "31:Sys");
    let mut seen: Vec<&str> = Vec::new();
    for (i, line) in r.lines.iter().enumerate() {
        let (num, name) = line.split_at(2);
        assert_eq!(num.trim().parse::<usize>().unwrap(), i + 1);
        let name = &name[1..];
        assert!(!seen.contains(&name), "duplicate identity {}", name);
        seen.push(name);
    }
}

#[test]
fn memory_lines_render_the_exact_numbers() {
    let mut snap = empty_snapshot();
    snap.total_memory = 16384;
    snap.used_memory = 4096;
    snap.total_swap = 8192;
    snap.used_swap = 0;
    let r = dispatch_line("memory", &snap);
    assert_eq!(
        r.lines,
        vec![
            "total memory: 16384 KB",
            "used memory : 4096 KB",
            "total swap  : 8192 KB",
            "used swap   : 0 KB"
        ]
    );
}

#[test]
fn cpus_lines_report_unknown_core_count_and_details() {
    let mut snap = empty_snapshot();
    snap.global_cpu_usage = String::from("12.5");
    snap.cpu_details.push(String::from("cpu0"));
    snap.cpu_details.push(String::from("cpu1"));
    let r = dispatch_line("cpus", &snap);
    assert_eq!(
        r.lines,
        vec![
            "number of physical cores: Unknown",
            "total process usage: 12.5%",
            "cpu0",
            "cpu1"
        ]
    );
    snap.physical_cores = Some(8);
    let r = dispatch_line("cpus", &snap);
    assert_eq!(r.lines[0], "number of physical cores: 8");
}

#[test]
fn frequency_vendor_brand_boot_time_and_pid_lines() {
    let mut snap = empty_snapshot();
    snap.frequency = 2400;
    snap.vendor_id = String::from("GenuineIntel");
    snap.brand = String::from("Xeon");
    snap.boot_time = 1700000000;
    snap.self_pid = String::from("4321");
    assert_eq!(dispatch_line("frequency", &snap).lines, vec!["2400 MHz"]);
    assert_eq!(dispatch_line("vendor_id", &snap).lines, vec!["vendor ID: GenuineIntel"]);
    assert_eq!(dispatch_line("brand", &snap).lines, vec!["brand: Xeon"]);
    assert_eq!(dispatch_line("boot_time", &snap).lines, vec!["1700000000 seconds"]);
    assert_eq!(dispatch_line("pid", &snap).lines, vec!["PID: 4321"]);
}

#[test]
fn load_avg_lines_keep_the_rendered_values() {
    let mut snap = empty_snapshot();
    snap.load_one = String::from("0.52");
    snap.load_five = String::from("0.6");
    snap.load_fifteen = String::from("1");
    let r = dispatch_line("load_avg", &snap);
    assert_eq!(
        r.lines,
        vec![
            "one minute     : 0.52%",
            "five minutes   : 0.6%",
            "fifteen minutes: 1%"
        ]
    );
}

#[test]
fn all_lists_every_process_with_pid_name_and_status() {
    let mut snap = empty_snapshot();
    snap.processes.push(proc_rec(10, "a"));
    snap.processes.push(proc_rec(20, "b"));
    let r = dispatch_line("all", &snap);
    assert_eq!(r.lines, vec!["10:a status=Run", "20:b status=Run"]);
}

#[test]
fn network_lines_show_session_and_cumulative_counters() {
    let mut snap = empty_snapshot();
    snap.networks.push(NetRec {
        name: String::from("eth0"),
        received: 1,
        total_received: 100,
        transmitted: 2,
        total_transmitted: 200,
    });
    let r = dispatch_line("network", &snap);
    assert_eq!(
        r.lines,
        vec![
            "eth0:\n  input data  (new / total): 1 / 100 B\n  output data (new / total): 2 / 200 B"
        ]
    );
}

#[test]
fn users_disks_and_temperature_echo_the_snapshot() {
    let mut snap = empty_snapshot();
    snap.users.push(String::from("\"alice\""));
    snap.users.push(String::from("\"bob\""));
    snap.disks.push(String::from("disk sda"));
    snap.components.push(String::from("cpu temp 42"));
    assert_eq!(dispatch_line("users", &snap).lines, vec!["\"alice\"", "\"bob\""]);
    assert_eq!(dispatch_line("disks", &snap).lines, vec!["disk sda"]);
    assert_eq!(dispatch_line("temperature", &snap).lines, vec!["cpu temp 42"]);
}

#[test]
fn system_falls_back_to_unknown_for_missing_facts() {
    let mut snap = empty_snapshot();
    snap.sys_name = Some(String::from("Linux"));
    let r = dispatch_line("system", &snap);
    assert_eq!(r.lines.len(), 1);
    assert_eq!(
        r.lines[0],
        "System name:              Linux\n\
         System kernel version:    <unknown>\n\
         System OS version:        <unknown>\n\
         System OS (long) version: <unknown>\n\
         System host name:         <unknown>"
    );
}

#[test]
fn help_prints_the_full_menu() {
    let snap = empty_snapshot();
    let r = dispatch_line("help", &snap);
    assert_eq!(r.lines.len(), 25);
    assert_eq!(r.lines[0], "== Help menu ==");
    assert_eq!(r.lines[24], "quit               : Exit the program");
    assert_eq!(
        r.lines[8],
        "kill [pid] [signal]: send [signal] to the process with this [pid]. 0 < [signal] < 32"
    );
}

#[test]
fn parse_u64_accepts_digits_only_within_range() {
    assert_eq!(parse_u64("0"), Some(0));
    assert_eq!(parse_u64("007"), Some(7));
    assert_eq!(parse_u64("18446744073709551615"), Some(u64::MAX));
    assert_eq!(parse_u64("18446744073709551616"), None);
    assert_eq!(parse_u64(""), None);
    assert_eq!(parse_u64("-1"), None);
    assert_eq!(parse_u64("12a"), None);
    assert_eq!(parse_u64("+5"), None);
}

#[test]
fn multi_space_argument_lists_are_arity_errors() {
    let mut snap = empty_snapshot();
    snap.processes.push(proc_rec(5, "x"));
    let r = dispatch_line("show  5", &snap);
    assert_eq!(
        r.lines,
        vec!["show command takes a pid or a name in parameter!", "example: show 1254"]
    );
}
