use ping_monitor::mailer::{build_alert_plan, build_test_plan, test_email_body};
use ping_monitor::settings::{SmtpSettings, TlsMode};

fn valid() -> SmtpSettings {
    SmtpSettings {
        host: " smtp.example.com ".to_string(),
        port: 465,
        username: "user".to_string(),
        password: "SECRET-REDACTED".to_string(),
        from: "alerts@example.com".to_string(),
        to: "ops@example.com".to_string(),
        tls_mode: Some(TlsMode::Ssl),
        use_tls: false,
    }
}

#[test]
fn test_plan_rejections_name_the_field() {
    let mut s = valid();
    s.host = "  ".to_string();
    assert_eq!(build_test_plan(&s, "now").unwrap_err(), "SMTP 主机不能为空");

    let mut s = valid();
    s.port = 0;
    assert_eq!(build_test_plan(&s, "now").unwrap_err(), "SMTP 端口不合法");

    let mut s = valid();
    s.from = "".to_string();
    assert_eq!(build_test_plan(&s, "now").unwrap_err(), "发件人邮箱不能为空");

    let mut s = valid();
    s.to = " ".to_string();
    assert_eq!(build_test_plan(&s, "now").unwrap_err(), "测试收件人邮箱不能为空");

    let mut s = valid();
    s.from = "not a mailbox".to_string();
    assert_eq!(build_test_plan(&s, "now").unwrap_err(), "发件人邮箱格式不正确");

    let mut s = valid();
    s.to = "also not a mailbox".to_string();
    assert_eq!(build_test_plan(&s, "now").unwrap_err(), "测试收件人邮箱格式不正确");
}

#[test]
fn alert_plan_rejections_name_the_field() {
    let mut s = valid();
    s.host = "".to_string();
    assert_eq!(build_alert_plan(&s, "body").unwrap_err(), "SMTP 主机未配置");

    let mut s = valid();
    s.port = 0;
    assert_eq!(build_alert_plan(&s, "body").unwrap_err(), "SMTP 端口不合法");

    let mut s = valid();
    s.to = "".to_string();
    assert_eq!(build_alert_plan(&s, "body").unwrap_err(), "SMTP 发件人或收件人未配置");

    let mut s = valid();
    s.from = "broken mailbox".to_string();
    assert_eq!(build_alert_plan(&s, "body").unwrap_err(), "发件人邮箱格式不正确");

    let mut s = valid();
    s.to = "broken mailbox".to_string();
    assert_eq!(build_alert_plan(&s, "body").unwrap_err(), "收件人邮箱格式不正确");
}

#[test]
fn valid_configuration_resolves_full_plan() {
    let plan = build_test_plan(&valid(), "2024-05-01 10:00:00").unwrap();
    assert_eq!(plan.host, "smtp.example.com");
    assert_eq!(plan.port, 465);
    assert!(plan.use_ssl);
    assert!(!plan.starttls);
    assert_eq!(plan.username, "user");
    assert_eq!(plan.from, "alerts@example.com");
    assert_eq!(plan.to, "ops@example.com");
    assert_eq!(plan.subject, "Ping Tool 测试邮件");
    assert!(!plan.html);
    assert_eq!(plan.body, "这是一封测试邮件，用于验证 SMTP 配置。\n\n发送时间: 2024-05-01 10:00:00");
    assert_eq!(plan.body, test_email_body("2024-05-01 10:00:00"));
}

#[test]
fn alert_plan_uses_html_and_the_given_body() {
    let mut s = valid();
    s.tls_mode = Some(TlsMode::Starttls);
    let plan = build_alert_plan(&s, "<b>outage</b>").unwrap();
    assert!(!plan.use_ssl);
    assert!(plan.starttls);
    assert_eq!(plan.subject, "网络丢包告警");
    assert!(plan.html);
    assert_eq!(plan.body, "<b>outage</b>");
}

#[test]
fn legacy_flag_decides_transport_when_mode_absent() {
    let mut s = valid();
    s.tls_mode = None;
    s.use_tls = true;
    let plan = build_alert_plan(&s, "b").unwrap();
    assert!(plan.use_ssl && !plan.starttls);

    s.use_tls = false;
    let plan = build_alert_plan(&s, "b").unwrap();
    assert!(!plan.use_ssl && !plan.starttls);
}
