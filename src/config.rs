//! The notification configuration: relay credentials, addresses and the last
//! address that was observed and reported.

use vstd::prelude::*;

verus! {

/// Settings of the outbound mail relay and of the notification's endpoints.
pub struct SmtpConfig {
    pub server: String,
    pub port: u16,
    pub login: String,
    pub password: String,
    pub from_addr: String,
    pub to_addr: String,
}

impl SmtpConfig {
    /// A field-by-field copy.
    pub fn duplicate(&self) -> (r: SmtpConfig)
        ensures
            r == *self,
    {
        SmtpConfig {
            server: self.server.clone(),
            port: self.port,
            login: self.login.clone(),
            password: self.password.clone(),
            from_addr: self.from_addr.clone(),
            to_addr: self.to_addr.clone(),
        }
    }
}

/// The whole durable record: relay settings and the last reported address.
pub struct Config {
    pub smtp: SmtpConfig,
    pub ipv6: Option<String>,
}

/// The text of an optional string, if any.
pub open spec fn opt_view(o: Option<String>) -> Option<Seq<char>> {
    match o {
        Some(s) => Some(s@),
        None => None,
    }
}

/// Both credentials are filled in.
pub open spec fn configured(c: Config) -> bool {
    c.smtp.login@.len() > 0 && c.smtp.password@.len() > 0
}

/// The last reported address; an empty stored value counts as none.
pub open spec fn previous_address(c: Config) -> Option<Seq<char>> {
    match c.ipv6 {
        Some(s) => if s@.len() > 0 {
            Some(s@)
        } else {
            None
        },
        None => None,
    }
}

impl Config {
    /// Whether the login and the password are both non-empty.
    pub fn is_configured(&self) -> (r: bool)
        ensures
            r == configured(*self),
    {
        !self.smtp.login.as_str().is_empty() && !self.smtp.password.as_str().is_empty()
    }

    /// The last reported address, with an empty stored value read as none.
    pub fn last_observed(&self) -> (r: Option<String>)
        ensures
            match r {
                Some(s) => previous_address(*self) == Some(s@),
                None => previous_address(*self) is None,
            },
    {
        match &self.ipv6 {
            Some(s) => if s.as_str().is_empty() {
                None
            } else {
                Some(s.clone())
            },
            None => None,
        }
    }

    /// The same settings with `addr` recorded as the last reported address.
    pub fn with_observed(self, addr: String) -> (r: Config)
        ensures
            r.smtp == self.smtp,
            r.ipv6 == Some(addr),
    {
        Config { smtp: self.smtp, ipv6: Some(addr) }
    }
}

/// The file written on a first run: commented, with the credentials left empty.
pub const CONFIG_TEMPLATE: &'static str = "# 上次检测到的IPv6地址（程序自动维护，请勿手动修改）\nipv6 = \"\"\n\n# SMTP服务器配置\n[smtp]\nserver = \"smtp.qq.com\"    # SMTP服务器地址\nport = 587               # SMTP端口\nlogin = \"\"              # 邮箱账号\npassword = \"\"           # 邮箱授权码\nfrom_addr = \"\"         # 发件人地址\nto_addr = \"\"          # 收件人地址\n";

} // verus!
