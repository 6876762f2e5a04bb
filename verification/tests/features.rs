use confutils::blocklist::hosts_blocklist_domains;
use confutils::blocklist::privacy_firewall_domains;
use confutils::blocklist::quoted_domain_list;
use confutils::commands::kill_process_command;
use confutils::commands::power_plan_command;
use confutils::commands::read_registry_command;
use confutils::commands::flush_dns_verdict;
use confutils::commands::restart_service_command;
use confutils::commands::service_status_command;
use confutils::commands::set_service_startup_type_command;
use confutils::commands::start_service_command;
use confutils::commands::stop_service_command;
use confutils::commands::write_registry_command;
use confutils::debug_check::check_hardware_breakpoints;
use confutils::debug_check::check_parent_process;
use confutils::debug_check::check_suspicious_processes;
use confutils::debug_check::check_timing_anomaly;
use confutils::debug_check::combine_debug_checks;
use confutils::debug_check::is_debugger_present;
use confutils::debug_check::is_vm;
use confutils::debug_check::timing_verdict;
use confutils::discord_auth::auth_candidates;
use confutils::discord_auth::outcome_tries_next;
use confutils::discord_auth::resolve_discord_auth;
use confutils::discord_auth::AuthOutcome;
use confutils::errors::ErrorKind;
use confutils::errors::TweakError;
use confutils::hwid::generate_hwid;
use confutils::hwid::get_hardware_info;
use confutils::hwid::verify_hwid;
use confutils::taskbar::parse_hex_color;
use confutils::taskbar::resolve_accent_state;
use confutils::taskbar::rgba_hex_string;
use confutils::taskbar::to_abgr;
use confutils::taskbar::translucenttb_accent;
use confutils::taskbar::appearance_params;
use confutils::wipe::overwrite_chunks;

#[test]
fn bare_token_tries_bare_then_prefixed() {
    let c = auth_candidates("aBcToken");
    assert_eq!(c, vec!["aBcToken", "Bot aBcToken"]);
}

#[test]
fn prefixed_token_is_normalized_then_tried_bare() {
    let c = auth_candidates("bot   xyz");
    assert_eq!(c, vec!["Bot xyz", "xyz"]);
    let c2 = auth_candidates("Bot abc");
    assert_eq!(c2, vec!["Bot abc", "abc"]);
}

#[test]
fn prefix_without_a_following_token_does_not_count() {
    // Trimming removes the space after `Bot`, so no prefix is seen.
    let c = auth_candidates("Bot ");
    assert_eq!(c, vec!["Bot", "Bot Bot"]);
}

#[test]
fn resolver_takes_the_prefixed_candidate_after_a_rejection() {
    let outcomes = vec![
        AuthOutcome::Unauthorized,
        AuthOutcome::Success { user_id: Some(String::from("42")) },
    ];
    let (header, user) = resolve_discord_auth("rawtoken", &outcomes).unwrap();
    assert_eq!(header, "Bot rawtoken");
    assert_eq!(user, Some(String::from("42")));
}

#[test]
fn resolver_accepts_the_first_candidate_on_success() {
    let outcomes = vec![
        AuthOutcome::Success { user_id: None },
        AuthOutcome::Unauthorized,
    ];
    let (header, user) = resolve_discord_auth("rawtoken", &outcomes).unwrap();
    assert_eq!(header, "rawtoken");
    assert_eq!(user, None);
}

#[test]
fn resolver_exhausts_when_every_candidate_is_rejected() {
    let outcomes = vec![AuthOutcome::Unauthorized, AuthOutcome::Unauthorized];
    match resolve_discord_auth("rawtoken", &outcomes) {
        Err(e) => assert_eq!(e.kind, ErrorKind::AuthExhausted),
        Ok(_) => panic!("rejected candidates must exhaust the resolver"),
    }
}

#[test]
fn resolver_stops_on_a_terminal_failure() {
    let outcomes = vec![
        AuthOutcome::HttpFailure { status: 500, body: String::from("oops") },
        AuthOutcome::Success { user_id: Some(String::from("42")) },
    ];
    match resolve_discord_auth("rawtoken", &outcomes) {
        Err(e) => assert_eq!(e.kind, ErrorKind::Generic),
        Ok(_) => panic!("a terminal failure must stop the resolver"),
    }
    let timeouts = vec![AuthOutcome::Timeout, AuthOutcome::Unauthorized];
    assert!(resolve_discord_auth("rawtoken", &timeouts).is_err());
    assert!(outcome_tries_next(&AuthOutcome::Unauthorized));
    assert!(!outcome_tries_next(&AuthOutcome::ConnectFailure));
}

#[test]
fn hwid_is_the_digest_of_the_joined_components() {
    assert_eq!(
        generate_hwid("a", "b", "c", "d"),
        "32c6a50aba0b30f63f124f4b2bb47dc027b9e48f838f71d1debe69d8680ecf70"
    );
}

#[test]
fn hardware_info_reports_the_placeholder_components() {
    let info = get_hardware_info().unwrap();
    assert_eq!(info.cpu_id, "unknown-cpu");
    assert_eq!(info.motherboard_serial, "unknown-mb");
    assert_eq!(info.disk_serial, "unknown-disk");
    assert_eq!(info.mac_address, "unknown-mac");
    assert_eq!(info.hwid, "c980d3f0d4e7c9b3b0baf578499bcd68a4fb79d3141e212daf265018e073c8a1");
}

#[test]
fn stored_hwid_verifies_only_when_it_matches() {
    assert_eq!(
        verify_hwid("c980d3f0d4e7c9b3b0baf578499bcd68a4fb79d3141e212daf265018e073c8a1").unwrap(),
        true
    );
    assert_eq!(verify_hwid("deadbeef").unwrap(), false);
}

#[test]
fn debugger_tool_names_are_recognized() {
    assert!(check_parent_process("X64DBG"));
    assert!(check_parent_process("some-IDA64-session"));
    assert!(!check_parent_process("explorer"));
}

#[test]
fn suspicious_process_names_match_exactly_after_lowercasing() {
    let names = vec![String::from("Notepad.exe"), String::from("WireShark.exe")];
    assert!(check_suspicious_processes(&names));
    let harmless = vec![String::from("wireshark-helper.exe")];
    assert!(!check_suspicious_processes(&harmless));
}

#[test]
fn vm_vendors_are_recognized_in_names_and_bios() {
    let names = vec![String::from("qemu-ga.exe")];
    assert!(is_vm(&names, None));
    let none: Vec<String> = Vec::new();
    assert!(is_vm(&none, Some("VMware, Inc.")));
    assert!(!is_vm(&none, Some("Dell Inc.")));
}

#[test]
fn portable_debugger_queries_find_nothing() {
    assert!(!is_debugger_present());
    assert!(!check_hardware_breakpoints());
}

#[test]
fn timing_checks_behave() {
    assert!(timing_verdict(11, 499500));
    assert!(timing_verdict(0, 0));
    assert!(!timing_verdict(10, 499500));
    assert!(!check_timing_anomaly());
}

#[test]
fn combined_debug_verdict_is_any_detection() {
    let r = combine_debug_checks(false, false, true, false, false, false);
    assert!(r.is_debugged);
    assert!(r.suspicious_parent);
    assert!(!r.debugger_present);
    let clean = combine_debug_checks(false, false, false, false, false, false);
    assert!(!clean.is_debugged);
}

#[test]
fn hex_colors_parse_in_both_forms() {
    assert_eq!(parse_hex_color("#ff0080"), (255, 0, 128));
    assert_eq!(parse_hex_color("#f08"), (255, 0, 136));
    assert_eq!(parse_hex_color("  #102030  "), (16, 32, 48));
    assert_eq!(parse_hex_color("bad"), (187, 170, 221));
    assert_eq!(parse_hex_color("ab"), (0, 0, 0));
    assert_eq!(parse_hex_color("#zz0000"), (0, 0, 0));
}

#[test]
fn abgr_packs_alpha_and_reversed_channels() {
    assert_eq!(to_abgr("#ffffff", 100, false), 0xFFFFFFFF);
    assert_eq!(to_abgr("#102030", 0, false), 0x10203000);
    assert_eq!(to_abgr("#102030", 0, true), 0x102030FF);
    assert_eq!(to_abgr("#000000", 50, false), 0x00000080);
}

#[test]
fn accent_states_follow_the_mode_word() {
    assert_eq!(resolve_accent_state("opaque", false), 1);
    assert_eq!(resolve_accent_state("transparent", true), 5);
    assert_eq!(resolve_accent_state("transparent", false), 2);
    assert_eq!(resolve_accent_state("blur", false), 3);
    assert_eq!(resolve_accent_state("acrylic", true), 4);
    assert_eq!(resolve_accent_state("whatever", true), 0);
}

#[test]
fn appearance_params_nudge_fully_transparent_acrylic() {
    let (accent, abgr) = appearance_params("acrylic", "#000000", 0, false);
    assert_eq!(accent, 4);
    assert_eq!(abgr, 0x00000003);
    let (accent2, abgr2) = appearance_params("opaque", "#102030", 0, false);
    assert_eq!(accent2, 1);
    assert_eq!(abgr2, 0x102030FF);
}

#[test]
fn translucenttb_names_follow_the_mode_word() {
    assert_eq!(translucenttb_accent("transparent"), "clear");
    assert_eq!(translucenttb_accent("opaque"), "opaque");
    assert_eq!(translucenttb_accent("odd"), "normal");
}

#[test]
fn rgba_text_is_uppercase_with_alpha_last() {
    assert_eq!(rgba_hex_string("#ff0080", 50), "#FF008080");
    assert_eq!(rgba_hex_string("#000000", 100), "#000000FF");
}

#[test]
fn service_commands_splice_the_validated_name() {
    let cmd = start_service_command("Spooler").unwrap();
    assert!(cmd.contains("Start-Service -Name \"Spooler\" -ErrorAction Stop"));
    assert!(cmd.contains("\"Service Spooler started successfully\""));
    let stop = stop_service_command(" Spooler ").unwrap();
    assert!(stop.contains("Stop-Service -Name \"Spooler\""));
    let status = service_status_command("Spooler").unwrap();
    assert!(status.contains("Get-Service -Name \"Spooler\""));
    assert!(status.contains("NotFound"));
    assert!(start_service_command("bad|name").is_err());
}

#[test]
fn kill_command_renders_the_pid_in_decimal() {
    assert_eq!(
        kill_process_command(1234).unwrap(),
        "Stop-Process -Id 1234 -Force; \"Process killed successfully\""
    );
    assert!(kill_process_command(0).is_err());
    assert!(kill_process_command(4).is_err());
    assert!(kill_process_command(u32::MAX).unwrap().contains("4294967295"));
}

#[test]
fn registry_read_command_addresses_the_hive_path() {
    let cmd = read_registry_command("HKLM", "SOFTWARE\\Test", "Version").unwrap();
    assert_eq!(
        cmd,
        "Get-ItemProperty -Path \"HKLM:\\SOFTWARE\\Test\" -Name \"Version\" -ErrorAction SilentlyContinue | Select-Object -ExpandProperty \"Version\""
    );
    match read_registry_command("C", "Users", "x") {
        Err(e) => assert_eq!(e.kind, ErrorKind::InvalidInput),
        Ok(_) => panic!("an unknown hive must be refused"),
    }
    match read_registry_command("HKLM", "..\\up", "x") {
        Err(e) => assert_eq!(e.kind, ErrorKind::SecurityViolation),
        Ok(_) => panic!("traversal must be refused"),
    }
}

#[test]
fn errors_carry_their_category_and_message() {
    let e = TweakError::new(ErrorKind::CancellationRequested, String::from("stopped"));
    assert_eq!(e.kind, ErrorKind::CancellationRequested);
    assert_eq!(e.message_text(), "stopped");
}

#[test]
fn blocklists_name_their_markers_and_domains() {
    let (marker, domains) = hosts_blocklist_domains("ads").unwrap();
    assert_eq!(marker, "ADS");
    assert_eq!(domains.len(), 10);
    assert_eq!(domains[0], "ads.google.com");
    let (marker2, domains2) = hosts_blocklist_domains("telemetry").unwrap();
    assert_eq!(marker2, "TELEMETRY");
    assert_eq!(domains2[9], "wes.df.telemetry.microsoft.com");
    match hosts_blocklist_domains("games") {
        Err(e) => assert_eq!(e.kind, ErrorKind::InvalidInput),
        Ok(_) => panic!("an unknown list must be refused"),
    }
}

#[test]
fn privacy_firewall_blocks_the_telemetry_domains() {
    let domains = privacy_firewall_domains();
    assert_eq!(domains.len(), 10);
    assert!(domains.contains(&String::from("telemetry.microsoft.com")));
}

#[test]
fn domain_lists_render_as_quoted_literals() {
    let ds = vec![String::from("a.com"), String::from("b.com")];
    assert_eq!(quoted_domain_list(&ds), "\"a.com\", \"b.com\"");
    let empty: Vec<String> = Vec::new();
    assert_eq!(quoted_domain_list(&empty), "");
    let one = vec![String::from("x.net")];
    assert_eq!(quoted_domain_list(&one), "\"x.net\"");
}

#[test]
fn restart_and_startup_type_commands_validate_their_inputs() {
    let restart = restart_service_command("Spooler").unwrap();
    assert!(restart.contains("Restart-Service -Name \"Spooler\" -ErrorAction Stop"));
    let st = set_service_startup_type_command("Spooler", "Manual").unwrap();
    assert!(st.contains("Set-Service -Name \"Spooler\" -StartupType Manual"));
    assert!(st.contains("startup type changed to Manual"));
    match set_service_startup_type_command("Spooler", "Sometimes") {
        Err(e) => assert_eq!(e.kind, ErrorKind::InvalidInput),
        Ok(_) => panic!("an unknown startup type must be refused"),
    }
    assert!(set_service_startup_type_command("bad|name", "Manual").is_err());
}

#[test]
fn dns_flush_output_is_read_by_its_markers() {
    assert_eq!(flush_dns_verdict("DNS cache flushed successfully").unwrap(), "DNS cache flushed successfully");
    match flush_dns_verdict("DNS cache flush failed: code 1") {
        Err(e) => assert_eq!(e.kind, ErrorKind::Generic),
        Ok(_) => panic!("a failure marker must yield an error"),
    }
    assert_eq!(flush_dns_verdict("nothing to report").unwrap(), "nothing to report");
}

#[test]
fn power_plan_command_names_the_scheme_ids() {
    assert_eq!(
        power_plan_command(true),
        "powercfg /setactive 8c5e7fda-e8bf-4a96-9a85-a6e23a8c635c; \"Power plan set successfully\""
    );
    assert!(power_plan_command(false).contains("381b4222-f694-41f0-9685-ff5bb260df2e"));
}

#[test]
fn registry_write_command_escapes_quotes_in_the_value() {
    let cmd = write_registry_command("HKCU", "Software\\App", "Title", "say \"hi\"").unwrap();
    assert_eq!(
        cmd,
        "New-Item -Path \"HKCU:\\Software\\App\" -Force | Out-Null; Set-ItemProperty -Path \"HKCU:\\Software\\App\" -Name \"Title\" -Value \"say `\"hi`\"\"; \"Registry value written successfully\""
    );
    let long = "x".repeat(10001);
    match write_registry_command("HKCU", "Software\\App", "Title", &long) {
        Err(e) => assert_eq!(e.kind, ErrorKind::InvalidInput),
        Ok(_) => panic!("an overlong value must be refused"),
    }
    assert!(write_registry_command("HKCU", "..\\x", "n", "v").is_err());
}

#[test]
fn overwrite_plan_covers_the_file_exactly() {
    assert_eq!(overwrite_chunks(10000), vec![4096, 4096, 1808]);
    assert_eq!(overwrite_chunks(4096), vec![4096]);
    assert_eq!(overwrite_chunks(1), vec![1]);
    assert_eq!(overwrite_chunks(0).len(), 0);
}
