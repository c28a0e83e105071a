use ping_monitor::settings::{
    default_smtp_port, load_fields, save_fields, SmtpSettings, TlsMode,
};

fn sample(tls_mode: Option<TlsMode>, use_tls: bool) -> SmtpSettings {
    SmtpSettings {
        host: " smtp.example.com ".to_string(),
        port: 587,
        username: "user".to_string(),
        password: "SECRET-REDACTED".to_string(),
        from: "alerts@example.com".to_string(),
        to: "ops@example.com".to_string(),
        tls_mode,
        use_tls,
    }
}

fn assert_same(a: &SmtpSettings, b: &SmtpSettings) {
    assert_eq!(a.host, b.host);
    assert_eq!(a.port, b.port);
    assert_eq!(a.username, b.username);
    assert_eq!(a.password, b.password);
    assert_eq!(a.from, b.from);
    assert_eq!(a.to, b.to);
    assert_eq!(a.tls_mode, b.tls_mode);
    assert_eq!(a.use_tls, b.use_tls);
}

#[test]
fn round_trip_with_explicit_mode() {
    let s = sample(Some(TlsMode::Starttls), false);
    let reloaded = load_fields(&save_fields(&s));
    assert_same(&s, &reloaded);
}

#[test]
fn round_trip_without_explicit_mode_keeps_legacy_flag_decisive() {
    let s = sample(None, true);
    let reloaded = load_fields(&save_fields(&s));
    assert_same(&s, &reloaded);
    assert_eq!(reloaded.effective_tls_mode(), TlsMode::Ssl);

    let s = sample(None, false);
    let reloaded = load_fields(&save_fields(&s));
    assert_same(&s, &reloaded);
    assert_eq!(reloaded.effective_tls_mode(), TlsMode::Plain);
}

#[test]
fn explicit_mode_wins_over_legacy_flag() {
    let s = sample(Some(TlsMode::Plain), true);
    assert_eq!(s.effective_tls_mode(), TlsMode::Plain);
}

#[test]
fn empty_store_loads_built_in_defaults() {
    let loaded = load_fields(&Vec::new());
    assert_eq!(loaded.host, "");
    assert_eq!(loaded.port, 465);
    assert_eq!(loaded.tls_mode, None);
    assert!(!loaded.use_tls);
    assert_eq!(loaded.effective_tls_mode(), TlsMode::Plain);
}

#[test]
fn defaults_use_implicit_tls_and_standard_port() {
    let d = SmtpSettings::default();
    assert_eq!(TlsMode::default(), TlsMode::Ssl);
    assert_eq!(d.port, default_smtp_port());
    assert_eq!(d.port, 465);
    assert_eq!(d.tls_mode, Some(TlsMode::Ssl));
    assert_eq!(d.effective_tls_mode(), TlsMode::Ssl);
}
