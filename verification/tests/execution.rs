use confutils::errors::ErrorKind;
use confutils::executor::build_invocation;
use confutils::executor::classify_output;
use confutils::executor::prepare_powershell;
use confutils::normalize::normalize_command_output;
use confutils::rate_limit::RateLimiter;

#[test]
fn success_output_is_trimmed() {
    let r = classify_output(true, "OK\n", "");
    assert_eq!(r.unwrap(), "OK");
}

#[test]
fn access_denied_is_permission_denied() {
    let r = classify_output(false, "error: Access is denied.", "");
    match r {
        Err(e) => {
            assert_eq!(e.kind, ErrorKind::PermissionDenied);
            assert!(e.message_text().contains("Access is denied"));
        },
        Ok(_) => panic!("a failed run must yield an error"),
    }
}

#[test]
fn unauthorized_exception_is_permission_denied() {
    let r = classify_output(false, "", "System.UnauthorizedAccessException at foo");
    match r {
        Err(e) => assert_eq!(e.kind, ErrorKind::PermissionDenied),
        Ok(_) => panic!("a failed run must yield an error"),
    }
}

#[test]
fn stderr_wins_over_stdout() {
    let r = classify_output(false, "out text", "real failure");
    match r {
        Err(e) => {
            assert_eq!(e.kind, ErrorKind::Generic);
            assert_eq!(e.message_text(), "real failure");
        },
        Ok(_) => panic!("a failed run must yield an error"),
    }
}

#[test]
fn diagnostic_noise_lines_are_stripped() {
    let stderr = "Cannot find path.\nAt line:1 char:1\n+ Get-Item bad\n  CategoryInfo : ObjectNotFound\n  FullyQualifiedErrorId : PathNotFound\n";
    let r = classify_output(false, "", stderr);
    match r {
        Err(e) => {
            assert_eq!(e.kind, ErrorKind::Generic);
            assert_eq!(e.message_text(), "Cannot find path.");
        },
        Ok(_) => panic!("a failed run must yield an error"),
    }
}

#[test]
fn all_noise_falls_back_to_the_untrimmed_text() {
    let stderr = "At line:1 char:1\n+ foo\n";
    let r = classify_output(false, "", stderr);
    match r {
        Err(e) => {
            assert_eq!(e.kind, ErrorKind::Generic);
            assert_eq!(e.message_text(), "At line:1 char:1\n+ foo\n");
        },
        Ok(_) => panic!("a failed run must yield an error"),
    }
}

#[test]
fn blank_output_survives_stripping_untrimmed() {
    let r = classify_output(false, " ", "");
    match r {
        Err(e) => {
            assert_eq!(e.kind, ErrorKind::Generic);
            assert_eq!(e.message_text(), " ");
        },
        Ok(_) => panic!("a failed run must yield an error"),
    }
}

#[test]
fn invocation_is_fixed() {
    let inv = build_invocation(String::from("Get-Date"));
    assert_eq!(inv.program, "powershell");
    assert_eq!(inv.args, vec!["-NoProfile", "-NonInteractive", "-Command", "Get-Date"]);
    assert_eq!(inv.env.len(), 2);
    assert_eq!(inv.env[0], (String::from("PYTHONIOENCODING"), String::from("utf-8")));
    assert_eq!(inv.env[1], (String::from("LANG"), String::from("en_US.UTF-8")));
}

#[test]
fn prepare_sanitizes_and_passes_text_through() {
    let mut limiter = RateLimiter::new(false);
    let inv = prepare_powershell("  Get-Date  ", false, false, &mut limiter, 0).unwrap();
    assert_eq!(inv.args[3], "Get-Date");
    assert!(prepare_powershell("a && b", false, false, &mut limiter, 0).is_err());
}

#[test]
fn prepare_can_skip_the_security_check() {
    let mut limiter = RateLimiter::new(false);
    let inv = prepare_powershell("a && b", true, true, &mut limiter, 0).unwrap();
    assert_eq!(inv.args[3], "a && b");
}

#[test]
fn prepare_charges_the_shared_rate_limit() {
    let mut limiter = RateLimiter::new(true);
    for _ in 0..10 {
        assert!(prepare_powershell("Get-Date", false, false, &mut limiter, 5).is_ok());
    }
    match prepare_powershell("Get-Date", false, false, &mut limiter, 5) {
        Err(e) => assert_eq!(e.kind, ErrorKind::RateLimitExceeded),
        Ok(_) => panic!("the eleventh request within the window must be refused"),
    }
    assert!(prepare_powershell("Get-Date", true, false, &mut limiter, 5).is_ok());
}

#[test]
fn blank_and_null_output_normalize_to_the_sentinel() {
    assert_eq!(normalize_command_output("", false), "[]");
    assert_eq!(normalize_command_output("   ", false), "[]");
    assert_eq!(normalize_command_output("null", false), "[]");
    assert_eq!(normalize_command_output("  null  ", false), "[]");
}

#[test]
fn malformed_non_bracket_output_normalizes_to_the_sentinel() {
    assert_eq!(normalize_command_output("Zugriff verweigert", false), "[]");
}

#[test]
fn valid_json_round_trips_unchanged() {
    assert_eq!(normalize_command_output("[1,2,3]", false), "[1,2,3]");
    assert_eq!(normalize_command_output("  [1, 2]  ", false), "  [1, 2]  ");
    assert_eq!(normalize_command_output("{\"a\":1}", false), "{\"a\":1}");
}

#[test]
fn malformed_bracket_output_passes_through_best_effort() {
    assert_eq!(normalize_command_output("[1,2,", false), "[1,2,");
    assert_eq!(normalize_command_output("{broken", false), "[]");
    assert_eq!(normalize_command_output("{broken", true), "{broken");
}

#[test]
fn rate_limiter_refuses_the_fourth_call_in_the_window() {
    let mut limiter = RateLimiter::new(true);
    assert!(limiter.check_rate_limit("op", 3, 60, 0).is_ok());
    assert!(limiter.check_rate_limit("op", 3, 60, 10).is_ok());
    assert!(limiter.check_rate_limit("op", 3, 60, 20).is_ok());
    match limiter.check_rate_limit("op", 3, 60, 30) {
        Err(e) => assert_eq!(e.kind, ErrorKind::RateLimitExceeded),
        Ok(_) => panic!("the fourth call within the window must be refused"),
    }
}

#[test]
fn rate_limiter_admits_again_after_the_window() {
    let mut limiter = RateLimiter::new(true);
    for _ in 0..3 {
        assert!(limiter.check_rate_limit("op", 3, 60, 0).is_ok());
    }
    assert!(limiter.check_rate_limit("op", 3, 60, 30).is_err());
    assert!(limiter.check_rate_limit("op", 3, 60, 60).is_ok());
}

#[test]
fn rate_limiter_keys_are_independent() {
    let mut limiter = RateLimiter::new(true);
    for _ in 0..3 {
        assert!(limiter.check_rate_limit("one", 3, 60, 0).is_ok());
    }
    assert!(limiter.check_rate_limit("one", 3, 60, 0).is_err());
    assert!(limiter.check_rate_limit("two", 3, 60, 0).is_ok());
}

#[test]
fn disabled_rate_limiter_admits_everything() {
    let mut limiter = RateLimiter::new(false);
    for i in 0..100u64 {
        assert!(limiter.check_rate_limit("op", 1, 60, i).is_ok());
    }
}

#[test]
fn zero_budget_refuses_at_once() {
    let mut limiter = RateLimiter::new(true);
    assert!(limiter.check_rate_limit("op", 0, 60, 0).is_err());
}
