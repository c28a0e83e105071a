//! Validation and planning of alert and test mails.
//!
//! Sending runs off the monitoring loop and outside the library; what is
//! verified here is everything decided beforehand: which configurations are
//! rejected and with which message, and the exact transport plan — trimmed
//! host, port, TLS arrangement, credentials, addresses, subject and body —
//! handed to the mail transport.

use crate::classify::{is_blank, trim, trim_text};
use crate::settings::{spec_effective_tls, SmtpModel, SmtpSettings, TlsMode};
use vstd::prelude::*;

verus! {

/// Whether lettre's mailbox grammar accepts the text; a function of the text
/// alone.
pub uninterp spec fn mailbox_ok(s: Seq<char>) -> bool;

/// Relies on lettre::message::Mailbox's FromStr parser: whether an address
/// text parses as a mailbox depends on that text alone.
#[verifier::external_body]
pub(crate) fn parse_mailbox_ok(s: &str) -> (r: bool)
    ensures
        r == mailbox_ok(s@),
{
    match s.parse::<lettre::message::Mailbox>() {
        Ok(_) => true,
        Err(_) => false,
    }
}

/// Everything the transport needs for one send, fully validated.
#[derive(Debug)]
pub struct MailPlan {
    pub host: String,
    pub port: u16,
    pub use_ssl: bool,
    pub starttls: bool,
    pub username: String,
    pub password: String,
    pub from: String,
    pub to: String,
    pub subject: String,
    pub html: bool,
    pub body: String,
}

/// Mathematical model of a [`MailPlan`].
pub struct MailPlanModel {
    pub host: Seq<char>,
    pub port: u16,
    pub use_ssl: bool,
    pub starttls: bool,
    pub username: Seq<char>,
    pub password: Seq<char>,
    pub from: Seq<char>,
    pub to: Seq<char>,
    pub subject: Seq<char>,
    pub html: bool,
    pub body: Seq<char>,
}

impl View for MailPlan {
    type V = MailPlanModel;

    open spec fn view(&self) -> MailPlanModel {
        MailPlanModel {
            host: self.host@,
            port: self.port,
            use_ssl: self.use_ssl,
            starttls: self.starttls,
            username: self.username@,
            password: self.password@,
            from: self.from@,
            to: self.to@,
            subject: self.subject@,
            html: self.html,
            body: self.body@,
        }
    }
}

/// The plan a valid configuration resolves to: the trimmed host, implicit
/// TLS exactly for the implicit mode, a STARTTLS request exactly for the
/// upgrade mode, credentials and addresses as configured.
pub open spec fn spec_plan(
    m: SmtpModel,
    subject: Seq<char>,
    html: bool,
    body: Seq<char>,
) -> MailPlanModel {
    MailPlanModel {
        host: trim(m.host),
        port: m.port,
        use_ssl: spec_effective_tls(m) is Ssl,
        starttls: spec_effective_tls(m) is Starttls,
        username: m.username,
        password: m.password,
        from: m.from,
        to: m.to,
        subject: subject,
        html: html,
        body: body,
    }
}

/// The rejection, if any, of a configuration offered for the interactive
/// test send, with the message naming the offending field.
pub open spec fn spec_test_error(m: SmtpModel) -> Option<Seq<char>> {
    if trim(m.host).len() == 0 {
        Some("SMTP 主机不能为空"@)
    } else if m.port == 0 {
        Some("SMTP 端口不合法"@)
    } else if trim(m.from).len() == 0 {
        Some("发件人邮箱不能为空"@)
    } else if trim(m.to).len() == 0 {
        Some("测试收件人邮箱不能为空"@)
    } else if !mailbox_ok(m.from) {
        Some("发件人邮箱格式不正确"@)
    } else if !mailbox_ok(m.to) {
        Some("测试收件人邮箱格式不正确"@)
    } else {
        None
    }
}

/// The rejection, if any, of a configuration used for an alert send.
pub open spec fn spec_alert_error(m: SmtpModel) -> Option<Seq<char>> {
    if trim(m.host).len() == 0 {
        Some("SMTP 主机未配置"@)
    } else if m.port == 0 {
        Some("SMTP 端口不合法"@)
    } else if trim(m.from).len() == 0 || trim(m.to).len() == 0 {
        Some("SMTP 发件人或收件人未配置"@)
    } else if !mailbox_ok(m.from) {
        Some("发件人邮箱格式不正确"@)
    } else if !mailbox_ok(m.to) {
        Some("收件人邮箱格式不正确"@)
    } else {
        None
    }
}

/// The body of the interactive test mail, for the given send time.
pub open spec fn spec_test_body(now_text: Seq<char>) -> Seq<char> {
    "这是一封测试邮件，用于验证 SMTP 配置。\n\n发送时间: "@ + now_text
}

/// The body of the interactive test mail.
pub fn test_email_body(now_text: &str) -> (s: String)
    ensures
        s@ == spec_test_body(now_text@),
{
    let mut s = "这是一封测试邮件，用于验证 SMTP 配置。\n\n发送时间: ".to_owned();
    s.append(now_text);
    s
}

/// Validate a configuration for the interactive test send and resolve its
/// transport plan.  Fails exactly on the configurations [`spec_test_error`]
/// rejects, with that message.
pub fn build_test_plan(smtp: &SmtpSettings, now_text: &str) -> (r: Result<MailPlan, String>)
    ensures
        r is Ok <==> spec_test_error(smtp@) is None,
        r is Ok ==> r->Ok_0@ == spec_plan(
            smtp@,
            "Ping Tool 测试邮件"@,
            false,
            spec_test_body(now_text@),
        ),
        r is Err ==> Some(r->Err_0@) == spec_test_error(smtp@),
{
    if is_blank(smtp.host.as_str()) {
        return Err("SMTP 主机不能为空".to_owned());
    }
    if smtp.port == 0 {
        return Err("SMTP 端口不合法".to_owned());
    }
    if is_blank(smtp.from.as_str()) {
        return Err("发件人邮箱不能为空".to_owned());
    }
    if is_blank(smtp.to.as_str()) {
        return Err("测试收件人邮箱不能为空".to_owned());
    }
    if !parse_mailbox_ok(smtp.from.as_str()) {
        return Err("发件人邮箱格式不正确".to_owned());
    }
    if !parse_mailbox_ok(smtp.to.as_str()) {
        return Err("测试收件人邮箱格式不正确".to_owned());
    }
    Ok(make_plan(smtp, "Ping Tool 测试邮件".to_owned(), false, test_email_body(now_text)))
}

/// Validate a configuration for an alert send and resolve its transport
/// plan.  Fails exactly on the configurations [`spec_alert_error`] rejects,
/// with that message.
pub fn build_alert_plan(smtp: &SmtpSettings, body: &str) -> (r: Result<MailPlan, String>)
    ensures
        r is Ok <==> spec_alert_error(smtp@) is None,
        r is Ok ==> r->Ok_0@ == spec_plan(smtp@, "网络丢包告警"@, true, body@),
        r is Err ==> Some(r->Err_0@) == spec_alert_error(smtp@),
{
    if is_blank(smtp.host.as_str()) {
        return Err("SMTP 主机未配置".to_owned());
    }
    if smtp.port == 0 {
        return Err("SMTP 端口不合法".to_owned());
    }
    if is_blank(smtp.from.as_str()) || is_blank(smtp.to.as_str()) {
        return Err("SMTP 发件人或收件人未配置".to_owned());
    }
    if !parse_mailbox_ok(smtp.from.as_str()) {
        return Err("发件人邮箱格式不正确".to_owned());
    }
    if !parse_mailbox_ok(smtp.to.as_str()) {
        return Err("收件人邮箱格式不正确".to_owned());
    }
    Ok(make_plan(smtp, "网络丢包告警".to_owned(), true, body.to_owned()))
}

/// Assemble the plan of a configuration that passed validation.
fn make_plan(smtp: &SmtpSettings, subject: String, html: bool, body: String) -> (r: MailPlan)
    ensures
        r@ == spec_plan(smtp@, subject@, html, body@),
{
    let tls = smtp.effective_tls_mode();
    MailPlan {
        host: trim_text(smtp.host.as_str()),
        port: smtp.port,
        use_ssl: matches!(tls, TlsMode::Ssl),
        starttls: matches!(tls, TlsMode::Starttls),
        username: smtp.username.clone(),
        password: smtp.password.clone(),
        from: smtp.from.clone(),
        to: smtp.to.clone(),
        subject,
        html,
        body,
    }
}

} // verus!
