//! The settings of the bridge.
use crate::text::chars_of;
use compact_str::CompactString;
use url::{ParseError, Url};
use vstd::prelude::*;

verus! {

/// The values that settings take when the environment does not give them.
pub struct ConfigDefaults {}

impl ConfigDefaults {
    /// Drive support is off unless it is asked for.
    pub fn fireboard_enable_drive_default() -> (r: bool)
        ensures
            !r,
    {
        false
    }

    /// The broker is looked for on this machine, on the standard port.
    pub fn mqtt_url_default() -> (r: String)
        ensures
            r@ == "mqtt://localhost:1883"@,
    {
        String::from_str("mqtt://localhost:1883")
    }

    /// The prefix under which Home Assistant listens for discovery documents.
    pub fn mqtt_discovery_topic_default() -> (r: String)
        ensures
            r@ == "homeassistant"@,
    {
        String::from_str("homeassistant")
    }

    /// The prefix of every state topic.
    pub fn mqtt_base_topic_default() -> (r: String)
        ensures
            r@ == "fireboard2mqtt"@,
    {
        String::from_str("fireboard2mqtt")
    }

    /// The client id that the bridge gives the broker.
    pub fn mqtt_clientid_default() -> (r: String)
        ensures
            r@ == "fireboard2mqtt"@,
    {
        String::from_str("fireboard2mqtt")
    }

    /// No value.
    pub fn none_default() -> (r: Option<String>)
        ensures
            r is None,
    {
        None
    }
}

/// The settings as the environment gives them, one field for each variable
/// `FB2MQTT_` and the field's name in upper case.
#[derive(Debug, Clone)]
pub struct FireboardConfigEnv {
    pub fireboardaccount_email: Option<String>,
    pub fireboardaccount_password: Option<String>,
    pub fireboard_enable_drive: bool,
    pub mqtt_url: String,
    pub mqtt_discovery_topic: String,
    pub mqtt_base_topic: String,
    pub mqtt_username: Option<String>,
    pub mqtt_password: Option<String>,
    pub mqtt_clientid: String,
}

/// The settings of the environment as contracts see them.
pub struct ConfigEnvView {
    pub fireboardaccount_email: Option<Seq<char>>,
    pub fireboardaccount_password: Option<Seq<char>>,
    pub fireboard_enable_drive: bool,
    pub mqtt_url: Seq<char>,
    pub mqtt_discovery_topic: Seq<char>,
    pub mqtt_base_topic: Seq<char>,
    pub mqtt_username: Option<Seq<char>>,
    pub mqtt_password: Option<Seq<char>>,
    pub mqtt_clientid: Seq<char>,
}

/// The characters of an optional string.
pub open spec fn opt_string_view(s: Option<String>) -> Option<Seq<char>> {
    match s {
        Some(t) => Some(t@),
        None => None,
    }
}

impl View for FireboardConfigEnv {
    type V = ConfigEnvView;

    open spec fn view(&self) -> ConfigEnvView {
        ConfigEnvView {
            fireboardaccount_email: opt_string_view(self.fireboardaccount_email),
            fireboardaccount_password: opt_string_view(self.fireboardaccount_password),
            fireboard_enable_drive: self.fireboard_enable_drive,
            mqtt_url: self.mqtt_url@,
            mqtt_discovery_topic: self.mqtt_discovery_topic@,
            mqtt_base_topic: self.mqtt_base_topic@,
            mqtt_username: opt_string_view(self.mqtt_username),
            mqtt_password: opt_string_view(self.mqtt_password),
            mqtt_clientid: self.mqtt_clientid@,
        }
    }
}

impl Default for FireboardConfigEnv {
    fn default() -> (r: Self)
        ensures
            r.fireboardaccount_email is None,
            r.fireboardaccount_password is None,
            !r.fireboard_enable_drive,
            r.mqtt_url@ == Seq::<char>::empty(),
            r.mqtt_discovery_topic@ == Seq::<char>::empty(),
            r.mqtt_base_topic@ == Seq::<char>::empty(),
            r.mqtt_username is None,
            r.mqtt_password is None,
            r.mqtt_clientid@ == Seq::<char>::empty(),
    {
        FireboardConfigEnv {
            fireboardaccount_email: None,
            fireboardaccount_password: None,
            fireboard_enable_drive: false,
            mqtt_url: String::new(),
            mqtt_discovery_topic: String::new(),
            mqtt_base_topic: String::new(),
            mqtt_username: None,
            mqtt_password: None,
            mqtt_clientid: String::new(),
        }
    }
}

/// The name and password with which the bridge logs in to the broker.
#[derive(Debug)]
pub struct MqttCredentials {
    pub username: CompactString,
    pub password: CompactString,
}

/// Broker credentials as contracts see them.
pub struct CredentialsView {
    pub username: Seq<char>,
    pub password: Seq<char>,
}

impl View for MqttCredentials {
    type V = CredentialsView;

    open spec fn view(&self) -> CredentialsView {
        CredentialsView { username: chars_of(self.username), password: chars_of(self.password) }
    }
}

impl Clone for MqttCredentials {
    fn clone(&self) -> (r: Self)
        ensures
            r@ == self@,
    {
        MqttCredentials { username: self.username.clone(), password: self.password.clone() }
    }
}

/// The settings that the bridge runs with.
#[derive(Debug)]
pub struct Fb2MqttConfig {
    pub fireboardaccount_email: CompactString,
    pub fireboardaccount_password: CompactString,
    /// Whether the drive of each device is polled and published.
    pub fireboard_enable_drive: bool,
    pub mqtt_host: CompactString,
    pub mqtt_port: u16,
    /// The prefix of every discovery topic.
    pub mqtt_discovery_topic: CompactString,
    /// The prefix of every state topic.
    pub mqtt_base_topic: CompactString,
    pub mqtt_credentials: Option<MqttCredentials>,
    pub mqtt_clientid: CompactString,
}

/// The settings as contracts see them.
pub struct ConfigView {
    pub fireboardaccount_email: Seq<char>,
    pub fireboardaccount_password: Seq<char>,
    pub fireboard_enable_drive: bool,
    pub mqtt_host: Seq<char>,
    pub mqtt_port: u16,
    pub mqtt_discovery_topic: Seq<char>,
    pub mqtt_base_topic: Seq<char>,
    pub mqtt_credentials: Option<CredentialsView>,
    pub mqtt_clientid: Seq<char>,
}

impl View for Fb2MqttConfig {
    type V = ConfigView;

    open spec fn view(&self) -> ConfigView {
        ConfigView {
            fireboardaccount_email: chars_of(self.fireboardaccount_email),
            fireboardaccount_password: chars_of(self.fireboardaccount_password),
            fireboard_enable_drive: self.fireboard_enable_drive,
            mqtt_host: chars_of(self.mqtt_host),
            mqtt_port: self.mqtt_port,
            mqtt_discovery_topic: chars_of(self.mqtt_discovery_topic),
            mqtt_base_topic: chars_of(self.mqtt_base_topic),
            mqtt_credentials: match self.mqtt_credentials {
                Some(c) => Some(c@),
                None => None,
            },
            mqtt_clientid: chars_of(self.mqtt_clientid),
        }
    }
}

impl Clone for Fb2MqttConfig {
    fn clone(&self) -> (r: Self)
        ensures
            r@ == self@,
    {
        Fb2MqttConfig {
            fireboardaccount_email: self.fireboardaccount_email.clone(),
            fireboardaccount_password: self.fireboardaccount_password.clone(),
            fireboard_enable_drive: self.fireboard_enable_drive,
            mqtt_host: self.mqtt_host.clone(),
            mqtt_port: self.mqtt_port,
            mqtt_discovery_topic: self.mqtt_discovery_topic.clone(),
            mqtt_base_topic: self.mqtt_base_topic.clone(),
            mqtt_credentials: match &self.mqtt_credentials {
                Some(c) => Some(c.clone()),
                None => None,
            },
            mqtt_clientid: self.mqtt_clientid.clone(),
        }
    }
}

/// What the bridge reads of the URL of the broker.
#[derive(Debug)]
pub struct MqttUrl {
    pub host: Option<String>,
    pub port: Option<u16>,
}

/// The parts of a broker URL as contracts see them.
pub struct MqttUrlView {
    pub host: Option<Seq<char>>,
    pub port: Option<u16>,
}

impl View for MqttUrl {
    type V = MqttUrlView;

    open spec fn view(&self) -> MqttUrlView {
        MqttUrlView { host: opt_string_view(self.host), port: self.port }
    }
}

/// The view of the parts of a URL, where there is one.
pub open spec fn opt_url_view(url: Option<MqttUrl>) -> Option<MqttUrlView> {
    match url {
        Some(u) => Some(u@),
        None => None,
    }
}

/// `url::ParseError`: why a text is no URL. It is not looked into.
#[verifier::external_type_specification]
#[verifier::external_body]
pub struct ExParseError(ParseError);

/// The host and the port that the `url` crate reads in `text`, or `None`
/// where it takes `text` for no absolute URL.
pub uninterp spec fn url_parts(text: Seq<char>) -> Option<MqttUrlView>;

/// `Url::parse`, and of the URL that it gives `Url::host_str` and
/// `Url::port`. The contract names the outcome after the text and says
/// nothing of what a host or a port looks like.
#[verifier::external_body]
fn parse_mqtt_url(text: &str) -> (r: Result<MqttUrl, ParseError>)
    ensures
        match r {
            Ok(u) => url_parts(text@) == Some(u@),
            Err(_) => url_parts(text@) is None,
        },
{
    let url = Url::parse(text)?;
    Ok(MqttUrl { host: url.host_str().map(String::from), port: url.port() })
}

/// What can be wrong with the settings of the environment.
#[derive(Debug, Clone, Copy, PartialEq, Eq, Structural)]
pub enum ConfigError {
    /// No e-mail address of the FireBoard account.
    MissingEmail,
    /// No password of the FireBoard account.
    MissingPassword,
    /// The URL of the broker is no URL.
    InvalidUrl,
    /// The URL of the broker names no host.
    MissingHost,
    /// A user name for the broker, but no password.
    MissingMqttPassword,
}

/// The port of a broker that names none.
pub const DEFAULT_MQTT_PORT: u16 = 1883;

/// What is wrong at first sight: a missing e-mail address, a missing password
/// and a broker URL that is none, in this order.
pub open spec fn first_problems(env: ConfigEnvView, url: Option<MqttUrlView>) -> Seq<ConfigError> {
    (if env.fireboardaccount_email is None {
        seq![ConfigError::MissingEmail]
    } else {
        Seq::empty()
    }) + (if env.fireboardaccount_password is None {
        seq![ConfigError::MissingPassword]
    } else {
        Seq::empty()
    }) + (if url is None {
        seq![ConfigError::InvalidUrl]
    } else {
        Seq::empty()
    })
}

/// The settings that the environment `env` and the parts `url` of its broker
/// URL amount to, or what is wrong with them. All that is wrong at first sight
/// is told together. A URL without a host, and a user name without a password,
/// are told only where nothing else is wrong. A broker without a port is
/// looked for on port 1883, and one without a user name is used anonymously.
pub open spec fn settings_of(env: ConfigEnvView, url: Option<MqttUrlView>) -> Result<
    ConfigView,
    Seq<ConfigError>,
> {
    if first_problems(env, url).len() > 0 {
        Err(first_problems(env, url))
    } else if url->0.host is None {
        Err(seq![ConfigError::MissingHost])
    } else if env.mqtt_username is Some && env.mqtt_password is None {
        Err(seq![ConfigError::MissingMqttPassword])
    } else {
        Ok(
            ConfigView {
                fireboardaccount_email: env.fireboardaccount_email->0,
                fireboardaccount_password: env.fireboardaccount_password->0,
                fireboard_enable_drive: env.fireboard_enable_drive,
                mqtt_host: url->0.host->0,
                mqtt_port: match url->0.port {
                    Some(p) => p,
                    None => DEFAULT_MQTT_PORT,
                },
                mqtt_discovery_topic: env.mqtt_discovery_topic,
                mqtt_base_topic: env.mqtt_base_topic,
                mqtt_credentials: match env.mqtt_username {
                    Some(username) => Some(
                        CredentialsView { username, password: env.mqtt_password->0 },
                    ),
                    None => None,
                },
                mqtt_clientid: env.mqtt_clientid,
            },
        )
    }
}

/// Whether an outcome is the one that the contract asks for.
pub open spec fn is_settings(
    r: Result<Fb2MqttConfig, Vec<ConfigError>>,
    want: Result<ConfigView, Seq<ConfigError>>,
) -> bool {
    match r {
        Ok(c) => want == Ok::<ConfigView, Seq<ConfigError>>(c@),
        Err(e) => want == Err::<ConfigView, Seq<ConfigError>>(e@),
    }
}

impl Fb2MqttConfig {
    /// The settings that `env` and the parts `url` of its broker URL amount
    /// to, or the list of what is wrong with them.
    pub fn from_parts(env: &FireboardConfigEnv, url: &Option<MqttUrl>) -> (r: Result<
        Fb2MqttConfig,
        Vec<ConfigError>,
    >)
        ensures
            is_settings(r, settings_of(env@, opt_url_view(*url))),
    {
        let ghost parts = opt_url_view(*url);
        let mut problems: Vec<ConfigError> = Vec::new();
        if env.fireboardaccount_email.is_none() {
            problems.push(ConfigError::MissingEmail);
        }
        if env.fireboardaccount_password.is_none() {
            problems.push(ConfigError::MissingPassword);
        }
        if url.is_none() {
            problems.push(ConfigError::InvalidUrl);
        }
        assert(problems@ =~= first_problems(env@, parts));
        if problems.len() > 0 {
            return Err(problems);
        }
        let (email, password, parsed) = match (
            &env.fireboardaccount_email,
            &env.fireboardaccount_password,
            url,
        ) {
            (Some(e), Some(p), Some(u)) => (e, p, u),
            _ => {
                return Err(problems);
            },
        };
        let host = match &parsed.host {
            Some(h) => h,
            None => {
                problems.push(ConfigError::MissingHost);
                assert(problems@ =~= seq![ConfigError::MissingHost]);
                return Err(problems);
            },
        };
        let mqtt_credentials = match &env.mqtt_username {
            None => None,
            Some(username) => match &env.mqtt_password {
                Some(secret) => Some(
                    MqttCredentials {
                        username: CompactString::from(username.as_str()),
                        password: CompactString::from(secret.as_str()),
                    },
                ),
                None => {
                    problems.push(ConfigError::MissingMqttPassword);
                    assert(problems@ =~= seq![ConfigError::MissingMqttPassword]);
                    return Err(problems);
                },
            },
        };
        Ok(
            Fb2MqttConfig {
                fireboardaccount_email: CompactString::from(email.as_str()),
                fireboardaccount_password: CompactString::from(password.as_str()),
                fireboard_enable_drive: env.fireboard_enable_drive,
                mqtt_host: CompactString::from(host.as_str()),
                mqtt_port: match parsed.port {
                    Some(p) => p,
                    None => DEFAULT_MQTT_PORT,
                },
                mqtt_base_topic: CompactString::from(env.mqtt_base_topic.as_str()),
                mqtt_discovery_topic: CompactString::from(env.mqtt_discovery_topic.as_str()),
                mqtt_credentials,
                mqtt_clientid: CompactString::from(env.mqtt_clientid.as_str()),
            },
        )
    }

}

/// Why the settings of the environment could not be had.
#[derive(Debug)]
pub struct ConfigFailure {
    /// What is wrong, in the order in which it is told.
    pub problems: Vec<ConfigError>,
    /// What the `url` crate said of a broker URL that is none.
    pub url_error: Option<ParseError>,
}

/// Whether an outcome is the one that the contract asks for.
pub open spec fn is_outcome(
    r: Result<Fb2MqttConfig, ConfigFailure>,
    want: Result<ConfigView, Seq<ConfigError>>,
) -> bool {
    match r {
        Ok(c) => want == Ok::<ConfigView, Seq<ConfigError>>(c@),
        Err(f) => want == Err::<ConfigView, Seq<ConfigError>>(f.problems@),
    }
}

/// The settings that the environment `env` amounts to, with its broker URL
/// read as the `url` crate reads it, or the list of what is wrong with them,
/// together with the error of the `url` crate where the broker URL is none.
/// Reading the environment itself is left to the caller.
pub fn load_cfg_from_env(env: &FireboardConfigEnv) -> (r: Result<Fb2MqttConfig, ConfigFailure>)
    ensures
        is_outcome(r, settings_of(env@, url_parts(env@.mqtt_url))),
        r matches Err(f) ==> (f.url_error is Some <==> url_parts(env@.mqtt_url) is None),
{
    match parse_mqtt_url(env.mqtt_url.as_str()) {
        Ok(url) => match Fb2MqttConfig::from_parts(env, &Some(url)) {
            Ok(cfg) => Ok(cfg),
            Err(problems) => Err(ConfigFailure { problems, url_error: None }),
        },
        Err(error) => match Fb2MqttConfig::from_parts(env, &None) {
            Ok(cfg) => Ok(cfg),
            Err(problems) => Err(ConfigFailure { problems, url_error: Some(error) }),
        },
    }
}

} // verus!
