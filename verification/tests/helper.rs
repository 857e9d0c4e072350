use open_ai_compatible::helper::{ApiKeyHelper, CommandOutput, FetchError};
use std::time::Instant;

fn finished(success: bool, stdout: &[u8], stderr: &[u8]) -> Result<CommandOutput, String> {
    Ok(CommandOutput {
        success,
        status: "exit status: 3".to_string(),
        stdout: stdout.to_vec(),
        stderr: stderr.to_vec(),
    })
}

#[test]
fn new_helper_has_nothing_cached() {
    let helper = ApiKeyHelper::new("print-key".to_string(), Some(60));
    assert_eq!(helper.command, "print-key");
    assert_eq!(helper.ttl_secs, Some(60));
    assert_eq!(helper.get_cached(), None);
    assert_eq!(helper.get_cached_after(0), None);
}

#[test]
fn stored_key_is_served_without_ttl() {
    let mut helper = ApiKeyHelper::new("print-key".to_string(), None);
    helper.store("secret".to_string());
    assert_eq!(helper.get_cached(), Some("secret".to_string()));
    assert_eq!(helper.get_cached_after(u64::MAX), Some("secret".to_string()));
}

#[test]
fn stored_key_expires_at_its_ttl() {
    let mut helper = ApiKeyHelper::new("print-key".to_string(), Some(60));
    helper.store_at("secret".to_string(), Instant::now());
    assert_eq!(helper.get_cached_after(59), Some("secret".to_string()));
    assert_eq!(helper.get_cached_after(60), None);
    assert_eq!(helper.get_cached_after(61), None);
    assert_eq!(helper.get_cached(), Some("secret".to_string()));
}

#[test]
fn zero_ttl_serves_nothing() {
    let mut helper = ApiKeyHelper::new("print-key".to_string(), Some(0));
    helper.store("secret".to_string());
    assert_eq!(helper.get_cached(), None);
}

#[test]
fn short_ttl_passes_on_the_clock() {
    let mut helper = ApiKeyHelper::new("print-key".to_string(), Some(1));
    helper.store("secret".to_string());
    let stored = Instant::now();
    while stored.elapsed().as_millis() < 1_100 {}
    assert_eq!(helper.get_cached(), None);
}

#[test]
fn invalidated_key_is_gone_and_last_store_wins() {
    let mut helper = ApiKeyHelper::new("print-key".to_string(), None);
    helper.store("first".to_string());
    helper.store("second".to_string());
    assert_eq!(helper.get_cached(), Some("second".to_string()));
    helper.invalidate();
    assert_eq!(helper.get_cached(), None);
    helper.store("third".to_string());
    assert_eq!(helper.get_cached(), Some("third".to_string()));
    assert_eq!(helper.command, "print-key");
}

#[test]
fn fetch_trims_the_output() {
    let key = ApiKeyHelper::fetch(finished(true, b" \t sk-1 2\r\n\n", b"ignored")).unwrap();
    assert_eq!(key, "sk-1 2");
    let wide = "\u{3000}k\u{e9}y\u{a0}\u{85}".as_bytes();
    assert_eq!(ApiKeyHelper::fetch(finished(true, wide, b"")).unwrap(), "k\u{e9}y");
}

#[test]
fn fetch_keeps_what_is_no_white_space() {
    let text = "\u{200b}k\u{feff}".as_bytes();
    assert_eq!(ApiKeyHelper::fetch(finished(true, text, b"")).unwrap(), "\u{200b}k\u{feff}");
}

#[test]
fn fetch_reports_a_failed_command() {
    let error = ApiKeyHelper::fetch(finished(false, b"sk-1\n", b"no \xffaccess")).unwrap_err();
    assert!(matches!(error, FetchError::Exited { .. }));
    assert_eq!(
        error.message(),
        "api_key_helper exited with exit status: 3: no \u{fffd}access"
    );
}

#[test]
fn fetch_reports_empty_output() {
    for stdout in [&b""[..], &b" \n"[..]] {
        let error = ApiKeyHelper::fetch(finished(true, stdout, b"")).unwrap_err();
        assert!(matches!(error, FetchError::EmptyOutput));
        assert_eq!(error.message(), "api_key_helper produced empty output");
    }
}

#[test]
fn fetch_reports_malformed_output() {
    let error = ApiKeyHelper::fetch(finished(true, b"sk\xff", b"")).unwrap_err();
    assert!(matches!(error, FetchError::InvalidUtf8 { .. }));
    assert_eq!(error.message(), "invalid utf-8 sequence of 1 bytes from index 2");
}

#[test]
fn fetch_reports_a_command_that_did_not_run() {
    let error = ApiKeyHelper::fetch(Err("no such file".to_string())).unwrap_err();
    assert!(matches!(error, FetchError::NotRun { .. }));
    assert_eq!(error.message(), "no such file");
    assert_eq!(
        error.log_line("api_key_helper failed"),
        "api_key_helper failed: no such file"
    );
}
