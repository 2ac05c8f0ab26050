//! Instance configuration: mail delivery, metrics and two-factor settings.

use vstd::prelude::*;

verus! {

/// Which mail delivery backend an instance uses.
#[derive(Debug, Clone, Copy, PartialEq, Eq, Structural)]
pub enum EmailProvider {
    Smtp,
    MailGun,
    MailJet,
    SendGrid,
}

/// Settings for delivering mail over SMTP.
#[derive(Debug, Clone, PartialEq, Eq)]
pub struct SMTPConfiguration {
    pub host: Option<String>,
    pub port: Option<u16>,
    pub username: Option<String>,
    pub password: Option<String>,
    pub sender: Option<String>,
}

impl Default for SMTPConfiguration {
    /// No SMTP relay is configured out of the box.
    fn default() -> (r: Self)
        ensures
            r.host is None,
            r.port is None,
            r.username is None,
            r.password is None,
            r.sender is None,
    {
        SMTPConfiguration { host: None, port: None, username: None, password: None, sender: None }
    }
}

/// Settings for delivering mail through MailGun.
#[derive(Debug, Clone, PartialEq, Eq)]
pub struct MailGunConfiguration {
    pub api_key: Option<String>,
    pub domain: Option<String>,
}

impl Default for MailGunConfiguration {
    /// No MailGun account is configured out of the box.
    fn default() -> (r: Self)
        ensures
            r.api_key is None,
            r.domain is None,
    {
        MailGunConfiguration { api_key: None, domain: None }
    }
}

/// Settings for delivering mail through MailJet.
#[derive(Debug, Clone, PartialEq, Eq)]
pub struct MailJetConfiguration {
    pub api_key: Option<String>,
    pub api_secret: Option<String>,
}

impl Default for MailJetConfiguration {
    /// No MailJet account is configured out of the box.
    fn default() -> (r: Self)
        ensures
            r.api_key is None,
            r.api_secret is None,
    {
        MailJetConfiguration { api_key: None, api_secret: None }
    }
}

/// Settings for delivering mail through SendGrid.
#[derive(Debug, Clone, PartialEq, Eq)]
pub struct SendGridConfiguration {
    pub api_key: Option<String>,
}

impl Default for SendGridConfiguration {
    /// No SendGrid account is configured out of the box.
    fn default() -> (r: Self)
        ensures
            r.api_key is None,
    {
        SendGridConfiguration { api_key: None }
    }
}

/// An instance's mail configuration: the chosen provider and the settings
/// for every backend it could choose.
#[derive(Debug, Clone, PartialEq, Eq)]
pub struct EmailConfiguration {
    pub provider: Option<EmailProvider>,
    pub smtp: SMTPConfiguration,
    pub mailgun: MailGunConfiguration,
    pub mailjet: MailJetConfiguration,
    pub sendgrid: SendGridConfiguration,
}

impl Default for EmailConfiguration {
    /// No provider is chosen and no backend is configured out of the box.
    fn default() -> (r: Self)
        ensures
            r.provider is None,
            r.smtp.host is None && r.smtp.port is None && r.smtp.username is None
                && r.smtp.password is None && r.smtp.sender is None,
            r.mailgun.api_key is None && r.mailgun.domain is None,
            r.mailjet.api_key is None && r.mailjet.api_secret is None,
            r.sendgrid.api_key is None,
    {
        EmailConfiguration {
            provider: None,
            smtp: SMTPConfiguration::default(),
            mailgun: MailGunConfiguration::default(),
            mailjet: MailJetConfiguration::default(),
            sendgrid: SendGridConfiguration::default(),
        }
    }
}

/// How long the metrics endpoint may take before a scrape is abandoned.
#[derive(Debug, Clone, Copy, PartialEq, Eq, Hash, Structural)]
pub struct MetricsConfiguration {
    /// Scrape timeout in milliseconds.
    pub timeout: u64,
}

impl Default for MetricsConfiguration {
    /// Scrapes time out after thirty seconds.
    fn default() -> (r: Self)
        ensures
            r.timeout == 30000,
    {
        MetricsConfiguration { timeout: 30000 }
    }
}

/// Two-factor authentication settings.
#[derive(Debug, Clone, Copy, PartialEq, Eq, Hash, Structural)]
pub struct TwoFactorConfiguration {
    pub generate_backup_codes: bool,
}

impl Default for TwoFactorConfiguration {
    /// Backup codes are generated out of the box.
    fn default() -> (r: Self)
        ensures
            r.generate_backup_codes,
    {
        TwoFactorConfiguration { generate_backup_codes: true }
    }
}

} // verus!
