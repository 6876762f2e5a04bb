use confutils::errors::ErrorKind;
use confutils::sanitize::sanitize_powershell_input;

#[test]
fn unquoted_double_ampersand_is_refused() {
    let r = sanitize_powershell_input("echo hi && Remove-Item x");
    match r {
        Err(e) => assert_eq!(e.kind, ErrorKind::SecurityViolation),
        Ok(_) => panic!("command chaining must be refused"),
    }
}

#[test]
fn unquoted_double_pipe_is_refused() {
    let r = sanitize_powershell_input("a || b");
    match r {
        Err(e) => assert_eq!(e.kind, ErrorKind::SecurityViolation),
        Ok(_) => panic!("command chaining must be refused"),
    }
}

#[test]
fn bare_ampersand_without_quotes_is_refused() {
    let r = sanitize_powershell_input("dir & echo done");
    match r {
        Err(e) => assert_eq!(e.kind, ErrorKind::SecurityViolation),
        Ok(_) => panic!("a bare ampersand must be refused"),
    }
}

#[test]
fn quoted_text_does_not_license_an_ampersand_outside_it() {
    let r = sanitize_powershell_input("'x' & calc");
    match r {
        Err(e) => assert_eq!(e.kind, ErrorKind::SecurityViolation),
        Ok(_) => panic!("an ampersand outside the quotes must be refused"),
    }
    let r2 = sanitize_powershell_input("a & $(b)");
    match r2 {
        Err(e) => assert_eq!(e.kind, ErrorKind::SecurityViolation),
        Ok(_) => panic!("an ampersand outside the group must be refused"),
    }
}

#[test]
fn ampersand_inside_a_quoted_region_is_accepted() {
    assert_eq!(sanitize_powershell_input("echo '&'").unwrap(), "echo ''&''");
    assert_eq!(sanitize_powershell_input("echo $(a & b)").unwrap(), "echo $(a & b)");
}

#[test]
fn backtick_is_refused() {
    let r = sanitize_powershell_input("echo `whoami`");
    match r {
        Err(e) => assert_eq!(e.kind, ErrorKind::SecurityViolation),
        Ok(_) => panic!("a backtick must be refused"),
    }
}

#[test]
fn redirection_characters_are_refused() {
    assert!(sanitize_powershell_input("echo hi > out.txt").is_err());
    assert!(sanitize_powershell_input("sort < input.txt").is_err());
}

#[test]
fn separator_inside_dollar_paren_is_accepted() {
    let r = sanitize_powershell_input("echo $(a && b)");
    assert_eq!(r.unwrap(), "echo $(a && b)");
}

#[test]
fn separator_inside_single_quotes_is_accepted() {
    let r = sanitize_powershell_input("'a && b'");
    assert_eq!(r.unwrap(), "''a && b''");
}

#[test]
fn escaped_quote_does_not_open_a_quoted_region() {
    // The backslash keeps the quote from toggling the scanner, so the
    // separator stands in clear text and is refused.
    let r = sanitize_powershell_input("\\'a && b");
    match r {
        Err(e) => assert_eq!(e.kind, ErrorKind::SecurityViolation),
        Ok(_) => panic!("the separator stands outside any quoted region"),
    }
}

#[test]
fn single_quotes_are_doubled() {
    let r = sanitize_powershell_input("O'Brien");
    assert_eq!(r.unwrap(), "O''Brien");
}

#[test]
fn input_is_trimmed() {
    let r = sanitize_powershell_input("  Get-Date  ");
    assert_eq!(r.unwrap(), "Get-Date");
}

#[test]
fn empty_input_is_accepted_empty() {
    assert_eq!(sanitize_powershell_input("").unwrap(), "");
}

#[test]
fn overlong_input_is_invalid() {
    let long = "a".repeat(20001);
    match sanitize_powershell_input(&long) {
        Err(e) => assert_eq!(e.kind, ErrorKind::InvalidInput),
        Ok(_) => panic!("overlong input must be refused"),
    }
    let just_fits = "a".repeat(20000);
    assert!(sanitize_powershell_input(&just_fits).is_ok());
}

#[test]
fn plain_command_passes_through() {
    let r = sanitize_powershell_input("Get-Service -Name Spooler");
    assert_eq!(r.unwrap(), "Get-Service -Name Spooler");
}
