use recisdb::diagnostics::Classifier;
use recisdb::diagnostics::Diagnostic;
use recisdb::diagnostics::ErrorDomain;
use recisdb::diagnostics::Failure;
use recisdb::diagnostics::Rule;

fn failure(domain: ErrorDomain, code: Option<i32>, text: &str) -> Failure {
    Failure { domain, code, text: text.to_string() }
}

fn actionable(message: &str) -> Diagnostic {
    Diagnostic { message: message.to_string(), actionable: true, fatal: true }
}

fn generic(message: &str) -> Diagnostic {
    Diagnostic { message: message.to_string(), actionable: false, fatal: true }
}

#[test]
fn try_again_while_tuning_means_channel_not_receivable() {
    let table = Classifier::with_codes(11, 22, 114);
    let d = table.classify(&failure(ErrorDomain::Tuning, Some(11), "EAGAIN: Try again"));
    assert_eq!(d, actionable("Channel selection failed; channel may not be receivable."));
    assert!(d.message.starts_with("Channel selection failed"));
    assert!(d.fatal);
}

#[test]
fn invalid_argument_while_tuning_means_invalid_channel() {
    let table = Classifier::with_codes(11, 22, 114);
    let d = table.classify(&failure(ErrorDomain::Tuning, Some(22), "EINVAL: Invalid argument"));
    assert_eq!(d, actionable("The specified channel is invalid."));
}

#[test]
fn already_in_progress_on_open_means_device_in_use() {
    let table = Classifier::with_codes(11, 22, 114);
    let d = table.classify(&failure(ErrorDomain::DeviceIo, Some(114), "already in progress"));
    assert_eq!(d, actionable("The tuner device is already in use."));
}

#[test]
fn other_os_errors_get_a_generic_message_with_their_text() {
    let table = Classifier::with_codes(11, 22, 114);
    let d = table.classify(&failure(ErrorDomain::Tuning, Some(5), "EIO: I/O error"));
    assert_eq!(d, generic("Unexpected Linux error: EIO: I/O error"));
    let d = table.classify(&failure(ErrorDomain::DeviceIo, Some(2), "No such file or directory"));
    assert_eq!(d, generic("Unexpected IO error: No such file or directory"));
    let d = table.classify(&failure(ErrorDomain::DeviceIo, None, "unexpected end of file"));
    assert_eq!(d, generic("Unexpected IO error: unexpected end of file"));
}

#[test]
fn non_os_errors_get_a_generic_message_with_their_text() {
    let table = Classifier::with_codes(11, 22, 114);
    let d = table.classify(&failure(ErrorDomain::NonOs, None, "decoder is not initialised"));
    assert_eq!(d, generic("Unexpected error: decoder is not initialised"));
    let d = table.classify(&failure(ErrorDomain::NonOs, Some(11), ""));
    assert_eq!(d, generic("Unexpected error: "));
}

#[test]
fn a_rule_applies_to_its_own_domain_only() {
    let table = Classifier::with_codes(11, 22, 114);
    let d = table.classify(&failure(ErrorDomain::DeviceIo, Some(11), "would block"));
    assert_eq!(d, generic("Unexpected IO error: would block"));
    let d = table.classify(&failure(ErrorDomain::Tuning, Some(114), "already"));
    assert_eq!(d, generic("Unexpected Linux error: already"));
    let d = table.classify(&failure(ErrorDomain::Tuning, None, "no code"));
    assert_eq!(d, generic("Unexpected Linux error: no code"));
}

#[test]
fn the_first_matching_rule_wins() {
    let table = Classifier::with_codes(7, 7, 7);
    let d = table.classify(&failure(ErrorDomain::Tuning, Some(7), "x"));
    assert_eq!(d, actionable("Channel selection failed; channel may not be receivable."));
    let d = table.classify(&failure(ErrorDomain::DeviceIo, Some(7), "x"));
    assert_eq!(d, actionable("The tuner device is already in use."));

    let mut extended = Classifier::with_codes(11, 22, 114);
    extended.push(Rule {
        domain: ErrorDomain::Tuning,
        code: 11,
        message: "never reached".to_string(),
    });
    extended.push(Rule {
        domain: ErrorDomain::DeviceIo,
        code: 16,
        message: "The device is busy.".to_string(),
    });
    let d = extended.classify(&failure(ErrorDomain::Tuning, Some(11), "x"));
    assert_eq!(d, actionable("Channel selection failed; channel may not be receivable."));
    let d = extended.classify(&failure(ErrorDomain::DeviceIo, Some(16), "x"));
    assert_eq!(d, actionable("The device is busy."));
}

#[test]
fn an_empty_table_knows_generic_messages_only() {
    let table = Classifier::new();
    assert!(table.rules.is_empty());
    let d = table.classify(&failure(ErrorDomain::Tuning, Some(11), "Try again"));
    assert_eq!(d, generic("Unexpected Linux error: Try again"));
}

#[test]
fn the_table_has_three_rules_in_order() {
    let table = Classifier::with_codes(1, 2, 3);
    let expected = vec![
        Rule {
            domain: ErrorDomain::Tuning,
            code: 1,
            message: "Channel selection failed; channel may not be receivable.".to_string(),
        },
        Rule {
            domain: ErrorDomain::Tuning,
            code: 2,
            message: "The specified channel is invalid.".to_string(),
        },
        Rule {
            domain: ErrorDomain::DeviceIo,
            code: 3,
            message: "The tuner device is already in use.".to_string(),
        },
    ];
    assert_eq!(table.rules, expected);
}

#[test]
fn the_platform_table_uses_the_platform_codes() {
    let table = Classifier::platform();
    assert_eq!(table.rules, Classifier::with_codes(libc::EAGAIN, libc::EINVAL, libc::EALREADY).rules);
    assert_eq!(table.rules[0].code, nix::errno::Errno::EAGAIN as i32);
    assert_eq!(table.rules[1].code, nix::errno::Errno::EINVAL as i32);
    assert_eq!(table.rules[2].code, libc::EALREADY);
    assert_ne!(table.rules[0].code, table.rules[1].code);
    let d = table.classify(&failure(ErrorDomain::Tuning, Some(libc::EAGAIN), "Try again"));
    assert_eq!(d, actionable("Channel selection failed; channel may not be receivable."));
    let d = table.classify(&failure(ErrorDomain::Tuning, Some(libc::EINVAL), "Invalid"));
    assert_eq!(d, actionable("The specified channel is invalid."));
    let d = table.classify(&failure(ErrorDomain::DeviceIo, Some(libc::EALREADY), "Already"));
    assert_eq!(d, actionable("The tuner device is already in use."));
    let d = table.classify(&failure(ErrorDomain::DeviceIo, Some(libc::ENOENT), "No such file"));
    assert_eq!(d, generic("Unexpected IO error: No such file"));
}

#[test]
fn classification_depends_on_domain_and_code_alone() {
    let table = Classifier::with_codes(11, 22, 114);
    let first = table.classify(&failure(ErrorDomain::Tuning, Some(11), "one text"));
    let second = table.classify(&failure(ErrorDomain::Tuning, Some(11), "another text"));
    assert_eq!(first, second);
    let again = table.classify(&failure(ErrorDomain::Tuning, Some(11), "one text"));
    assert_eq!(first, again);
    let a = table.classify(&failure(ErrorDomain::NonOs, None, "same"));
    let b = table.classify(&failure(ErrorDomain::NonOs, None, "same"));
    assert_eq!(a, b);
    assert_eq!(a.actionable, table.classify(&failure(ErrorDomain::NonOs, None, "other")).actionable);
}

#[test]
fn the_invalid_channel_diagnostic_is_actionable_and_fatal() {
    assert_eq!(Diagnostic::invalid_channel(), actionable("The specified channel is invalid."));
}
