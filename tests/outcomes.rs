use slog_unwraps::outcome::{fatal_emission, logged_pass, logged_unwrap, UNWRAP_OPERATION};
use slog_unwraps::call_site::CallSite;
use slog_unwraps::severity::Severity;

const ALL: [Severity; 6] = [
    Severity::Trace,
    Severity::Debug,
    Severity::Info,
    Severity::Warning,
    Severity::Error,
    Severity::Critical,
];

fn missing_file() -> std::io::Error {
    std::io::Error::from_raw_os_error(2)
}

#[test]
fn pass_of_success_is_silent() {
    for level in ALL {
        let (outcome, emission) = logged_pass(Ok::<u32, std::io::Error>(5), level);
        assert_eq!(outcome.unwrap(), 5);
        assert!(emission.is_none());
    }
}

#[test]
fn pass_of_failure_emits_error_text_at_level() {
    for level in ALL {
        let (outcome, emission) = logged_pass(Err::<u32, String>("bad input".to_string()), level);
        assert_eq!(outcome, Err("bad input".to_string()));
        let emission = emission.unwrap();
        assert_eq!(emission.level, level);
        assert_eq!(emission.message, "bad input");
    }
}

#[test]
fn pass_of_missing_file_at_error() {
    let (outcome, emission) = logged_pass(Err::<(), std::io::Error>(missing_file()), Severity::Error);
    assert_eq!(outcome.unwrap_err().raw_os_error(), Some(2));
    let emission = emission.unwrap();
    assert_eq!(emission.level, Severity::Error);
    assert_eq!(emission.message, "No such file or directory (os error 2)");
}

#[test]
fn repeated_passes_emit_once_each() {
    let mut messages = Vec::new();
    for _ in 0..3 {
        let (outcome, emission) = logged_pass(Err::<(), std::io::Error>(missing_file()), Severity::Warning);
        assert!(outcome.is_err());
        let emission = emission.unwrap();
        assert_eq!(emission.level, Severity::Warning);
        messages.push(emission.message);
    }
    assert_eq!(messages.len(), 3);
    assert!(messages.iter().all(|m| m == "No such file or directory (os error 2)"));
}

#[test]
fn unwrap_of_success_gives_value() {
    match logged_unwrap(Ok::<&str, std::io::Error>("file"), 1) {
        Ok(v) => assert_eq!(v, "file"),
        Err(_) => panic!("a success must pass"),
    }
}

#[test]
fn unwrap_of_failure_gives_one_critical_record() {
    match logged_unwrap(Err::<(), std::io::Error>(missing_file()), 1) {
        Ok(_) => panic!("a failure must not pass"),
        Err((e, emission)) => {
            assert_eq!(e.raw_os_error(), Some(2));
            assert_eq!(emission.level, Severity::Critical);
            assert!(emission.message.starts_with("PANIC - fn `"));
            assert!(emission.message.contains("` calls `unwraps` @ "));
            assert!(emission.message.ends_with(" -> Error: No such file or directory (os error 2)"));
        },
    }
}

#[test]
fn repeated_unwraps_are_independent() {
    for _ in 0..2 {
        let r = logged_unwrap(Err::<(), String>("gone".to_string()), 1);
        let (e, emission) = r.unwrap_err();
        assert_eq!(e, "gone");
        assert_eq!(emission.level, Severity::Critical);
        assert!(emission.message.ends_with(" -> Error: gone"));
        assert_eq!(emission.message.matches("PANIC").count(), 1);
    }
}

#[test]
fn fatal_record_for_a_named_function() {
    let site = CallSite {
        function: Some("boom".to_string()),
        file: Some("tests/basic.rs".to_string()),
        line: Some(78),
    };
    let emission = fatal_emission(&site, "No such file or directory (os error 2)");
    assert_eq!(emission.level, Severity::Critical);
    assert_eq!(
        emission.message,
        "PANIC - fn `boom` calls `unwraps` @ tests/basic.rs:78 -> Error: No such file or directory (os error 2)"
    );
    assert_eq!(UNWRAP_OPERATION, "unwraps");
}

#[test]
fn severities_are_ordered_by_urgency() {
    for (i, level) in ALL.iter().enumerate() {
        assert_eq!(level.urgency() as usize, i);
        for (j, other) in ALL.iter().enumerate() {
            assert_eq!(level.is_at_least(*other), i >= j);
        }
    }
}

fn boom() -> String {
    match logged_unwrap(Err::<(), std::io::Error>(missing_file()), 1) {
        Ok(_) => String::new(),
        Err((_, emission)) => emission.message,
    }
}

#[test]
fn unwrap_names_the_calling_function() {
    let call: fn() -> String = std::hint::black_box(boom);
    let message = call();
    let start = "PANIC - fn `".len();
    let end = message.find("` calls `unwraps` @ ").unwrap();
    let function = &message[start..end];
    assert!(function.ends_with("boom"), "{}", message);
    assert!(message.ends_with(" -> Error: No such file or directory (os error 2)"));
}
