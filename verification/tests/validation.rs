use confutils::errors::ErrorKind;
use confutils::validate::validate_discord_id;
use confutils::validate::validate_discord_token;
use confutils::validate::validate_file_path;
use confutils::validate::validate_process_id;
use confutils::validate::validate_registry_path;
use confutils::validate::validate_service_name;

#[test]
fn process_id_zero_is_invalid_input() {
    match validate_process_id(0) {
        Err(e) => assert_eq!(e.kind, ErrorKind::InvalidInput),
        Ok(_) => panic!("pid 0 must be refused"),
    }
}

#[test]
fn reserved_process_ids_are_security_violations() {
    match validate_process_id(4) {
        Err(e) => assert_eq!(e.kind, ErrorKind::SecurityViolation),
        Ok(_) => panic!("pid 4 must be refused"),
    }
    assert!(validate_process_id(1).is_err());
}

#[test]
fn ordinary_process_id_is_accepted() {
    assert_eq!(validate_process_id(1000).unwrap(), 1000);
}

#[test]
fn service_name_allows_word_characters() {
    assert_eq!(validate_service_name("Print Spooler_2-x").unwrap(), "Print Spooler_2-x");
}

#[test]
fn service_name_refuses_punctuation() {
    match validate_service_name("spooler|stop") {
        Err(e) => assert_eq!(e.kind, ErrorKind::InvalidInput),
        Ok(_) => panic!("punctuation must be refused"),
    }
}

#[test]
fn service_name_length_bounds() {
    assert!(validate_service_name("").is_err());
    assert!(validate_service_name("   ").is_err());
    let long = "a".repeat(256);
    assert_eq!(validate_service_name(&long).unwrap(), long);
    let too_long = "a".repeat(257);
    assert!(validate_service_name(&too_long).is_err());
}

#[test]
fn registry_path_accepts_known_hives() {
    assert_eq!(validate_registry_path("HKLM:\\SOFTWARE\\Test").unwrap(), "HKLM:\\SOFTWARE\\Test");
    assert!(validate_registry_path("HKCU:\\Software").is_ok());
    assert!(validate_registry_path("HKCC:\\x").is_ok());
}

#[test]
fn registry_path_refuses_other_roots() {
    match validate_registry_path("C:\\SOFTWARE\\Test") {
        Err(e) => assert_eq!(e.kind, ErrorKind::InvalidInput),
        Ok(_) => panic!("a drive path is no registry path"),
    }
    assert!(validate_registry_path("hklm:\\SOFTWARE").is_err());
}

#[test]
fn registry_path_refuses_traversal() {
    match validate_registry_path("HKLM:\\..\\Test") {
        Err(e) => assert_eq!(e.kind, ErrorKind::SecurityViolation),
        Ok(_) => panic!("traversal must be refused"),
    }
    assert!(validate_registry_path("HKLM://Test").is_err());
}

#[test]
fn discord_id_accepts_digit_strings() {
    assert_eq!(validate_discord_id("123456789012345").unwrap(), "123456789012345");
}

#[test]
fn discord_id_refuses_letters_and_empty() {
    assert!(validate_discord_id("abc123").is_err());
    assert!(validate_discord_id("").is_err());
    let long = "9".repeat(21);
    assert!(validate_discord_id(&long).is_err());
    let fits = "9".repeat(20);
    assert!(validate_discord_id(&fits).is_ok());
}

#[test]
fn discord_token_length_bounds() {
    let ok = "x".repeat(50);
    assert_eq!(validate_discord_token(&ok).unwrap(), ok);
    let upper = "x".repeat(200);
    assert!(validate_discord_token(&upper).is_ok());
    match validate_discord_token(&"x".repeat(49)) {
        Err(e) => assert_eq!(e.kind, ErrorKind::InvalidInput),
        Ok(_) => panic!("a short token must be refused"),
    }
    assert!(validate_discord_token(&"x".repeat(201)).is_err());
    assert!(validate_discord_token("").is_err());
}

#[test]
fn discord_token_refuses_control_characters() {
    let mut t = "x".repeat(50);
    t.insert(10, '\n');
    match validate_discord_token(&t) {
        Err(e) => assert_eq!(e.kind, ErrorKind::SecurityViolation),
        Ok(_) => panic!("a control character must be refused"),
    }
}

#[test]
fn relative_file_path_is_accepted() {
    assert_eq!(validate_file_path("logs\\today.txt").unwrap(), "logs\\today.txt");
}

#[test]
fn absolute_file_path_needs_an_allowed_root() {
    assert!(validate_file_path("C:\\Users\\someone\\file.txt").is_ok());
    assert!(validate_file_path("C:\\ProgramData\\app\\cfg.json").is_ok());
    assert!(validate_file_path("C:\\Windows\\Temp\\t.tmp").is_ok());
    match validate_file_path("C:\\Windows\\System32\\cmd.exe") {
        Err(e) => assert_eq!(e.kind, ErrorKind::SecurityViolation),
        Ok(_) => panic!("a system path must be refused"),
    }
    assert!(validate_file_path("\\\\server\\share\\f").is_err());
}

#[test]
fn file_path_refuses_traversal() {
    assert!(validate_file_path("C:\\Users\\..\\Windows").is_err());
    assert!(validate_file_path("a//b").is_err());
}
