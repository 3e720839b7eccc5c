//! Server configuration: defaults, parsing of the raw settings, and derived addresses.
use vstd::prelude::*;
use crate::utils::{decimal, push_char, push_decimal, str_eq};

verus! {

/// Deployment environment.
#[derive(Clone, Copy, Debug, PartialEq, Eq, Structural)]
pub enum Environment {
    Development,
    Production,
}

/// Server configuration.
#[derive(Clone, Debug)]
pub struct AppConfig {
    pub host: String,
    pub port: u16,
    pub static_dir: String,
    pub templates_dir: String,
    pub database_url: Option<String>,
    pub environment: Environment,
    pub https_enabled: bool,
    pub https_port: u16,
    pub cert_path: Option<String>,
    pub key_path: Option<String>,
}

/// The raw settings a configuration is read from, each absent when unset.
#[derive(Clone, Debug)]
pub struct ConfigSettings {
    pub host: Option<String>,
    pub port: Option<String>,
    pub static_dir: Option<String>,
    pub templates_dir: Option<String>,
    pub database_url: Option<String>,
    pub environment: Option<String>,
    pub https_enabled: Option<String>,
    pub https_port: Option<String>,
    pub cert_path: Option<String>,
    pub key_path: Option<String>,
}

/// A setting that does not parse.
#[derive(Clone, Copy, Debug, PartialEq, Eq, Structural)]
pub enum ConfigError {
    /// The port setting is not a number in `0..=65535`.
    InvalidPort,
    /// The HTTPS port setting is not a number in `0..=65535`.
    InvalidHttpsPort,
}

pub open spec fn is_digit(c: char) -> bool {
    '0' <= c && c <= '9'
}

/// Value of a string of decimal digits.
pub open spec fn digits_value(s: Seq<char>) -> int
    decreases s.len(),
{
    if s.len() == 0 {
        0
    } else {
        digits_value(s.drop_last()) * 10 + (s.last() as int - '0' as int)
    }
}

/// Whether every character of `d` is a decimal digit.
pub open spec fn all_digits(d: Seq<char>) -> bool {
    forall|k: int| 0 <= k < d.len() ==> is_digit(#[trigger] d[k])
}

/// The digits of a port number: the text less an optional leading `+`.
pub open spec fn port_digits(s: Seq<char>) -> Seq<char> {
    if s.len() > 0 && s[0] == '+' {
        s.drop_first()
    } else {
        s
    }
}

/// A port number as written: an optional `+`, then one or more decimal digits whose value
/// fits in 16 bits.
pub open spec fn port_value(s: Seq<char>) -> Option<u16> {
    if port_digits(s).len() > 0 && all_digits(port_digits(s)) && digits_value(port_digits(s)) <= 65535 {
        Some(digits_value(port_digits(s)) as u16)
    } else {
        None
    }
}

/// The setting's text, or `default` when unset.
pub open spec fn setting_or(v: Option<String>, default: Seq<char>) -> Seq<char> {
    match v {
        Some(s) => s@,
        None => default,
    }
}

/// Parses a port number.
pub fn parse_port(s: &str) -> (r: Option<u16>)
    ensures
        r == port_value(s@),
{
    let n = s.unicode_len();
    let start: usize = if n > 0 && s.get_char(0) == '+' { 1 } else { 0 };
    let ghost d = port_digits(s@);
    assert(d =~= s@.subrange(start as int, n as int));
    if start == n {
        return None;
    }
    let mut value: u32 = 0;
    let mut i: usize = start;
    while i < n
        invariant
            start <= i <= n,
            n == s@.len(),
            d == s@.subrange(start as int, n as int),
            d == port_digits(s@),
            forall|k: int| start <= k < i ==> is_digit(#[trigger] s@[k]),
            value == digits_value(s@.subrange(start as int, i as int)),
            value <= 65535,
        decreases n - i,
    {
        let c = s.get_char(i);
        if !('0' <= c && c <= '9') {
            assert(d[i - start] == s@[i as int]);
            assert(!is_digit(d[i - start]));
            assert(!all_digits(d));
            assert(port_value(s@) is None);
            return None;
        }
        let ghost prefix = s@.subrange(start as int, i + 1);
        assert(prefix.drop_last() =~= s@.subrange(start as int, i as int));
        let next = value * 10 + (c as u32 - '0' as u32);
        if next > 65535 {
            proof {
                assert(d.subrange(0, i + 1 - start) =~= prefix);
                assert(digits_value(prefix) == next);
                if all_digits(d) {
                    lemma_digits_value_grows(d, i + 1 - start);
                }
                assert(port_value(s@) is None);
            }
            return None;
        }
        value = next;
        i = i + 1;
    }
    assert(s@.subrange(start as int, n as int) =~= d);
    assert forall|k: int| 0 <= k < d.len() implies is_digit(#[trigger] d[k]) by {
        assert(d[k] == s@[k + start]);
    }
    Some(value as u16)
}

/// The value of a digit string is at least the value of any of its prefixes.
proof fn lemma_digits_value_grows(d: Seq<char>, k: int)
    requires
        0 <= k <= d.len(),
        forall|j: int| 0 <= j < d.len() ==> is_digit(#[trigger] d[j]),
    ensures
        digits_value(d) >= digits_value(d.subrange(0, k)),
    decreases d.len(),
{
    if k < d.len() {
        let t = d.drop_last();
        assert forall|j: int| 0 <= j < t.len() implies is_digit(#[trigger] t[j]) by {
            assert(t[j] == d[j]);
        }
        lemma_digits_value_grows(t, k);
        assert(t.subrange(0, k) =~= d.subrange(0, k));
        lemma_digits_value_nonneg(t);
    } else {
        assert(d.subrange(0, k) =~= d);
    }
}

proof fn lemma_digits_value_nonneg(d: Seq<char>)
    requires
        forall|j: int| 0 <= j < d.len() ==> is_digit(#[trigger] d[j]),
    ensures
        digits_value(d) >= 0,
    decreases d.len(),
{
    if d.len() > 0 {
        let t = d.drop_last();
        assert forall|j: int| 0 <= j < t.len() implies is_digit(#[trigger] t[j]) by {
            assert(t[j] == d[j]);
        }
        lemma_digits_value_nonneg(t);
        assert(is_digit(d[d.len() - 1]));
    }
}

/// The setting's text, or `default` when unset.
fn text_or(v: Option<String>, default: &str) -> (r: String)
    ensures
        r@ == setting_or(v, default@),
{
    match v {
        Some(s) => s,
        None => default.to_owned(),
    }
}

impl AppConfig {
    /// Reads a configuration from raw settings. Unset settings take their defaults: host
    /// `0.0.0.0`, port `8000`, directories `static` and `templates`, HTTPS off on port `8443`.
    /// The environment is production only for the exact text `production`, and HTTPS is on only
    /// for the exact text `true`. A port that does not parse is an error.
    pub fn from_settings(settings: ConfigSettings) -> (r: Result<AppConfig, ConfigError>)
        ensures
            port_value(setting_or(settings.port, "8000"@)) is None ==> r == Err::<AppConfig, ConfigError>(ConfigError::InvalidPort),
            port_value(setting_or(settings.port, "8000"@)) is Some && port_value(setting_or(settings.https_port, "8443"@)) is None
                ==> r == Err::<AppConfig, ConfigError>(ConfigError::InvalidHttpsPort),
            r is Ok <==> (port_value(setting_or(settings.port, "8000"@)) is Some && port_value(
                setting_or(settings.https_port, "8443"@),
            ) is Some),
            r matches Ok(c) ==> {
                &&& c.host@ == setting_or(settings.host, "0.0.0.0"@)
                &&& Some(c.port) == port_value(setting_or(settings.port, "8000"@))
                &&& c.static_dir@ == setting_or(settings.static_dir, "static"@)
                &&& c.templates_dir@ == setting_or(settings.templates_dir, "templates"@)
                &&& c.database_url == settings.database_url
                &&& c.environment == (if setting_or(settings.environment, seq![]) == "production"@ {
                    Environment::Production
                } else {
                    Environment::Development
                })
                &&& c.https_enabled == (setting_or(settings.https_enabled, "false"@) == "true"@)
                &&& Some(c.https_port) == port_value(setting_or(settings.https_port, "8443"@))
                &&& c.cert_path == settings.cert_path
                &&& c.key_path == settings.key_path
            },
    {
        let port_text = text_or(settings.port, "8000");
        let port = match parse_port(port_text.as_str()) {
            Some(p) => p,
            None => return Err(ConfigError::InvalidPort),
        };
        let https_port_text = text_or(settings.https_port, "8443");
        let https_port = match parse_port(https_port_text.as_str()) {
            Some(p) => p,
            None => return Err(ConfigError::InvalidHttpsPort),
        };
        let environment_text = text_or(settings.environment, "");
        proof {
            reveal_strlit("");
            assert(""@ =~= Seq::<char>::empty());
        }
        let environment = if str_eq(environment_text.as_str(), "production") {
            Environment::Production
        } else {
            Environment::Development
        };
        let https_text = text_or(settings.https_enabled, "false");
        let https_enabled = str_eq(https_text.as_str(), "true");
        Ok(AppConfig {
            host: text_or(settings.host, "0.0.0.0"),
            port,
            static_dir: text_or(settings.static_dir, "static"),
            templates_dir: text_or(settings.templates_dir, "templates"),
            database_url: settings.database_url,
            environment,
            https_enabled,
            https_port,
            cert_path: settings.cert_path,
            key_path: settings.key_path,
        })
    }

    /// Whether the server runs in development.
    pub fn is_development(&self) -> (r: bool)
        ensures
            r == (self.environment == Environment::Development),
    {
        self.environment == Environment::Development
    }

    /// `host:port` for the plain HTTP listener.
    pub fn bind_address(&self) -> (r: String)
        ensures
            r@ == self.host@ + seq![':'] + decimal(self.port as nat),
    {
        let mut r = self.host.clone();
        push_char(&mut r, ':');
        push_decimal(&mut r, self.port as u64);
        r
    }

    /// `host:https_port` for the HTTPS listener.
    pub fn https_bind_address(&self) -> (r: String)
        ensures
            r@ == self.host@ + seq![':'] + decimal(self.https_port as nat),
    {
        let mut r = self.host.clone();
        push_char(&mut r, ':');
        push_decimal(&mut r, self.https_port as u64);
        r
    }

    /// Whether plain HTTP requests are redirected: only in production with HTTPS enabled.
    pub fn should_force_https(&self) -> (r: bool)
        ensures
            r == (self.environment == Environment::Production && self.https_enabled),
    {
        self.environment == Environment::Production && self.https_enabled
    }
}

} // verus!
