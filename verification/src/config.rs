//! The settings of the service, and what is derived from them.

use crate::domain::subscriber_email::{invalid_email_message, is_valid_email, SubscriberEmail};
use vstd::prelude::*;
use vstd::std_specs::convert::TryFromSpecImpl;
use vstd::string::*;

verus! {

/// All settings.
pub struct Settings {
    pub application: ApplicationSettings,
    pub database: DatabaseSettings,
    pub email_client: EmailClientSettings,
}

/// Where the service listens, and under which address it is reached.
#[derive(Debug)]
pub struct ApplicationSettings {
    pub host: String,
    pub port: u16,
    pub base_url: String,
}

/// How the email provider is reached.
pub struct EmailClientSettings {
    pub base_url: String,
    pub sender_email: String,
    pub authorization_token: String,
    pub timeout_milliseconds: u64,
}

impl EmailClientSettings {
    /// The sender's address, if `sender_email` is a valid one.
    pub fn sender(&self) -> (r: Result<SubscriberEmail, String>)
        ensures
            match r {
                Ok(email) => is_valid_email(self.sender_email@) && email@ == self.sender_email@,
                Err(message) => !is_valid_email(self.sender_email@) && message@
                    == invalid_email_message(self.sender_email@),
            },
    {
        SubscriberEmail::parse(self.sender_email.clone())
    }

    /// How long to wait for the provider's answer, in milliseconds.
    pub fn timeout(&self) -> (milliseconds: u64)
        ensures
            milliseconds == self.timeout_milliseconds,
    {
        self.timeout_milliseconds
    }
}

/// How the database is reached.
pub struct DatabaseSettings {
    pub username: String,
    pub password: String,
    pub host: String,
    pub port: u16,
    pub database_name: String,
    pub require_ssl: bool,
}

/// Whether a connection to the database must be encrypted.
#[derive(Debug, Clone, Copy, PartialEq, Eq, Structural)]
pub enum SslMode {
    /// Encrypt if the server can, and go on in the clear if it cannot.
    Prefer,
    /// Encrypt, or fail.
    Require,
}

/// What it takes to connect to the database server, and to one of its
/// databases if `database` names one.
pub struct ConnectOptions {
    pub host: String,
    pub username: String,
    pub password: String,
    pub port: u16,
    pub ssl_mode: SslMode,
    pub database: Option<String>,
}

impl DatabaseSettings {
    /// The mode that `require_ssl` asks for.
    pub open spec fn ssl_mode(self) -> SslMode {
        if self.require_ssl {
            SslMode::Require
        } else {
            SslMode::Prefer
        }
    }

    /// The options to connect to the server, with no database chosen.
    pub fn without_db(&self) -> (options: ConnectOptions)
        ensures
            options.host@ == self.host@,
            options.username@ == self.username@,
            options.password@ == self.password@,
            options.port == self.port,
            options.ssl_mode == self.ssl_mode(),
            options.database is None,
    {
        let ssl_mode = if self.require_ssl {
            SslMode::Require
        } else {
            SslMode::Prefer
        };
        ConnectOptions {
            host: self.host.clone(),
            username: self.username.clone(),
            password: self.password.clone(),
            port: self.port,
            ssl_mode,
            database: None,
        }
    }

    /// The options to connect to the database `database_name`.
    pub fn with_db(&self) -> (options: ConnectOptions)
        ensures
            options.host@ == self.host@,
            options.username@ == self.username@,
            options.password@ == self.password@,
            options.port == self.port,
            options.ssl_mode == self.ssl_mode(),
            options.database matches Some(name) && name@ == self.database_name@,
    {
        let mut options = self.without_db();
        options.database = Some(self.database_name.clone());
        options
    }
}

/// The most connections that the pool holds at a time.
pub const MAX_CONNECTIONS: u32 = 5;

/// How long a request waits for a connection of the pool before it fails, in
/// seconds.
pub const ACQUIRE_TIMEOUT_SECONDS: u64 = 2;

/// What it takes to set up a pool of connections to the database: the pool
/// is bounded, and so is the wait for one of its connections.
pub struct PoolOptions {
    pub max_connections: u32,
    pub acquire_timeout_seconds: u64,
    pub connect: ConnectOptions,
}

/// The options of the pool of connections to the database of the settings.
pub fn get_db_pool(configuration: &DatabaseSettings) -> (options: PoolOptions)
    ensures
        options.max_connections == MAX_CONNECTIONS,
        options.acquire_timeout_seconds == ACQUIRE_TIMEOUT_SECONDS,
        options.connect.host@ == configuration.host@,
        options.connect.username@ == configuration.username@,
        options.connect.password@ == configuration.password@,
        options.connect.port == configuration.port,
        options.connect.ssl_mode == configuration.ssl_mode(),
        options.connect.database matches Some(name) && name@ == configuration.database_name@,
{
    PoolOptions {
        max_connections: MAX_CONNECTIONS,
        acquire_timeout_seconds: ACQUIRE_TIMEOUT_SECONDS,
        connect: configuration.with_db(),
    }
}

/// Where the service runs.
#[derive(Debug, Clone, Copy, PartialEq, Eq, Structural)]
pub enum Environment {
    Local,
    Production,
}

/// `s` in lower case, as Unicode maps each of its characters.
pub uninterp spec fn lowercase(s: Seq<char>) -> Seq<char>;

/// Turns `s` to lower case with `str::to_lowercase`. Trusted: the result is
/// the text that [`lowercase`] names.
#[verifier::external_body]
fn to_lowercase(s: &str) -> (r: String)
    ensures
        r@ == lowercase(s@),
{
    s.to_lowercase()
}

/// The environment that a name in lower case stands for, or the complaint
/// about a name that stands for none.
pub open spec fn environment_named(name: Seq<char>) -> Result<Environment, Seq<char>> {
    if name == "local"@ {
        Ok(Environment::Local)
    } else if name == "production"@ {
        Ok(Environment::Production)
    } else {
        Err(name + " is not a supported environment. Use either `local` or `production`"@)
    }
}

/// Whether `r` is `expected`, the complaint taken by its text.
pub open spec fn is_environment_result(
    r: Result<Environment, String>,
    expected: Result<Environment, Seq<char>>,
) -> bool {
    match r {
        Ok(environment) => expected == Ok::<Environment, Seq<char>>(environment),
        Err(message) => expected == Err::<Environment, Seq<char>>(message@),
    }
}

impl Environment {
    /// The name of the environment.
    pub open spec fn name(self) -> Seq<char> {
        match self {
            Environment::Local => "local"@,
            Environment::Production => "production"@,
        }
    }

    /// The name of the environment.
    pub fn as_str(&self) -> (r: &'static str)
        ensures
            r@ == self.name(),
    {
        match self {
            Environment::Local => "local",
            Environment::Production => "production",
        }
    }

    /// The name of the environment.
    pub fn to_string(&self) -> (r: String)
        ensures
            r@ == self.name(),
    {
        String::from_str(self.as_str())
    }

    /// The environment that `name`, a name in lower case, stands for.
    pub fn from_lowercase(name: String) -> (r: Result<Environment, String>)
        ensures
            is_environment_result(r, environment_named(name@)),
    {
        if name == String::from_str("local") {
            Ok(Environment::Local)
        } else if name == String::from_str("production") {
            Ok(Environment::Production)
        } else {
            let mut message = name;
            message.append(" is not a supported environment. Use either `local` or `production`");
            Err(message)
        }
    }

    /// The environment that the variable `APP_ENVIRONMENT` asks for: the
    /// local one where the variable is not set.
    pub fn from_variable(value: Option<String>) -> (r: Result<Environment, String>)
        ensures
            is_environment_result(
                r,
                match value {
                    Some(name) => environment_named(lowercase(name@)),
                    None => environment_named(lowercase("local"@)),
                },
            ),
    {
        match value {
            Some(name) => Environment::try_from(name),
            None => Environment::try_from(String::from_str("local")),
        }
    }
}

impl TryFrom<String> for Environment {
    type Error = String;

    /// The environment that `s` stands for, whatever the case of its
    /// letters.
    fn try_from(s: String) -> (r: Result<Environment, String>)
        ensures
            is_environment_result(r, environment_named(lowercase(s@))),
    {
        Environment::from_lowercase(to_lowercase(s.as_str()))
    }
}

/// The conversion is specified by the `ensures` of `try_from`, over the
/// text of the name; the specification that goes by the values themselves is
/// not used.
impl TryFromSpecImpl<String> for Environment {
    open spec fn obeys_try_from_spec() -> bool {
        false
    }

    open spec fn try_from_spec(v: String) -> Result<Environment, String> {
        arbitrary()
    }
}

} // verus!
