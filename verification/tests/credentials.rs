use updater_core::credential::resolve_credential;

#[test]
fn build_time_token_wins_over_runtime() {
    let r = resolve_credential(
        Some("built".to_string()),
        Some("runtime".to_string()),
        Some("provider".to_string()),
    );
    assert_eq!(r, Some("built".to_string()));
}

#[test]
fn primary_runtime_token_wins_over_fallback() {
    let r = resolve_credential(None, Some("runtime".to_string()), Some("provider".to_string()));
    assert_eq!(r, Some("runtime".to_string()));
}

#[test]
fn fallback_provider_token_used_last() {
    let r = resolve_credential(None, None, Some("provider".to_string()));
    assert_eq!(r, Some("provider".to_string()));
}

#[test]
fn absent_everywhere_is_legal() {
    assert_eq!(resolve_credential(None, None, None), None);
}
