use vstd::prelude::*;
use crate::text::same_text;
use crate::numbers::{parse_u16, parse_u32, parse_u64, parse_unsigned_spec, IntParseError};

verus! {

#[derive(Debug, Clone)]
pub struct AppConfig {
    pub app: AppSettings,
    pub database: DatabaseSettings,
    pub redis: RedisSettings,
    pub jwt: JwtSettings,
    pub observability: ObservabilitySettings,
}

#[derive(Debug, Clone)]
pub struct AppSettings {
    pub name: String,
    pub host: String,
    pub port: u16,
    pub environment: String,
    pub debug: bool,
}

#[derive(Debug, Clone)]
pub struct DatabaseSettings {
    pub url: String,
    pub pool_size: u32,
    pub connect_timeout: u64,
    pub idle_timeout: u64,
    pub max_lifetime: u64,
    pub sslmode: String,
}

#[derive(Debug, Clone)]
pub struct RedisSettings {
    pub url: String,
    pub pool_size: usize,
}

#[derive(Debug, Clone)]
pub struct JwtSettings {
    pub secret: String,
    /// Lifetime of access tokens, in seconds.
    pub access_expiration: i64,
    /// Lifetime of refresh tokens, in seconds.
    pub refresh_expiration: i64,
    pub issuer: String,
    pub audience: String,
}

#[derive(Debug, Clone)]
pub struct ObservabilitySettings {
    pub rust_log: String,
    pub prometheus_port: u16,
}

/// The environment variables the configuration reads; `None` where a variable
/// is unset or not valid Unicode.
#[derive(Debug, Clone)]
pub struct EnvVars {
    pub http_host: Option<String>,
    pub http_port: Option<String>,
    pub rust_env: Option<String>,
    pub rust_log: Option<String>,
    pub database_url: Option<String>,
    pub pool_size: Option<String>,
    pub connect_timeout: Option<String>,
    pub idle_timeout: Option<String>,
    pub max_lifetime: Option<String>,
    pub sslmode: Option<String>,
    pub redis_url: Option<String>,
    pub jwt_secret: Option<String>,
    pub monitoring_prometheus_port: Option<String>,
}

/// The text of a variable, or `default` when it is unset.
pub open spec fn var_or(v: Option<String>, default: Seq<char>) -> Seq<char> {
    match v {
        Some(s) => s@,
        None => default,
    }
}

pub open spec fn port_value(env: EnvVars) -> Result<nat, IntParseError> {
    parse_unsigned_spec(var_or(env.http_port, "8000"@), u16::MAX as nat)
}

pub open spec fn pool_size_value(env: EnvVars) -> Result<nat, IntParseError> {
    parse_unsigned_spec(var_or(env.pool_size, "10"@), u32::MAX as nat)
}

pub open spec fn connect_timeout_value(env: EnvVars) -> Result<nat, IntParseError> {
    parse_unsigned_spec(var_or(env.connect_timeout, "10"@), u64::MAX as nat)
}

pub open spec fn idle_timeout_value(env: EnvVars) -> Result<nat, IntParseError> {
    parse_unsigned_spec(var_or(env.idle_timeout, "60"@), u64::MAX as nat)
}

pub open spec fn max_lifetime_value(env: EnvVars) -> Result<nat, IntParseError> {
    parse_unsigned_spec(var_or(env.max_lifetime, "1800"@), u64::MAX as nat)
}

pub open spec fn prometheus_port_value(env: EnvVars) -> Result<nat, IntParseError> {
    parse_unsigned_spec(var_or(env.monitoring_prometheus_port, "9490"@), u16::MAX as nat)
}

/// Whether loading the configuration stops on a required variable that is
/// unset: `DATABASE_URL` is read after `HTTP_PORT`, `JWT_SECRET` after the
/// database numbers.
pub open spec fn config_panics(env: EnvVars) -> bool {
    ||| (port_value(env) is Ok && env.database_url is None)
    ||| (port_value(env) is Ok && env.database_url is Some && pool_size_value(env) is Ok
        && connect_timeout_value(env) is Ok && idle_timeout_value(env) is Ok
        && max_lifetime_value(env) is Ok && env.jwt_secret is None)
}

/// The first malformed number, in the order the variables are read.
pub open spec fn config_number_failure(env: EnvVars) -> Option<IntParseError> {
    if port_value(env) is Err {
        Some(port_value(env)->Err_0)
    } else if pool_size_value(env) is Err {
        Some(pool_size_value(env)->Err_0)
    } else if connect_timeout_value(env) is Err {
        Some(connect_timeout_value(env)->Err_0)
    } else if idle_timeout_value(env) is Err {
        Some(idle_timeout_value(env)->Err_0)
    } else if max_lifetime_value(env) is Err {
        Some(max_lifetime_value(env)->Err_0)
    } else if prometheus_port_value(env) is Err {
        Some(prometheus_port_value(env)->Err_0)
    } else {
        None
    }
}

/// Whether `c` is the configuration that `env` describes (when all its numbers parse).
pub open spec fn config_matches(c: AppConfig, env: EnvVars) -> bool {
    &&& c.app.name@ == "rust-auth"@
    &&& c.app.host@ == var_or(env.http_host, "0.0.0.0"@)
    &&& port_value(env) == Ok::<nat, IntParseError>(c.app.port as nat)
    &&& c.app.environment@ == var_or(env.rust_env, "development"@)
    &&& c.app.debug == (env.rust_log matches Some(s) && s@ == "debug"@)
    &&& env.database_url matches Some(u) && c.database.url@ == u@
    &&& pool_size_value(env) == Ok::<nat, IntParseError>(c.database.pool_size as nat)
    &&& connect_timeout_value(env) == Ok::<nat, IntParseError>(c.database.connect_timeout as nat)
    &&& idle_timeout_value(env) == Ok::<nat, IntParseError>(c.database.idle_timeout as nat)
    &&& max_lifetime_value(env) == Ok::<nat, IntParseError>(c.database.max_lifetime as nat)
    &&& c.database.sslmode@ == var_or(env.sslmode, "disable"@)
    &&& c.redis.url@ == var_or(env.redis_url, "redis://localhost:6379"@)
    &&& c.redis.pool_size == 20
    &&& env.jwt_secret matches Some(k) && c.jwt.secret@ == k@
    &&& c.jwt.access_expiration == 900
    &&& c.jwt.refresh_expiration == 604800
    &&& c.jwt.issuer@ == "rust-auth"@
    &&& c.jwt.audience@ == "asepharyana.my.id"@
    &&& c.observability.rust_log@ == var_or(env.rust_log, "info"@)
    &&& prometheus_port_value(env) == Ok::<nat, IntParseError>(
        c.observability.prometheus_port as nat,
    )
}

/// The text of a variable, or `default` when it is unset.
fn text_or(v: &Option<String>, default: &str) -> (r: String)
    ensures
        r@ == var_or(*v, default@),
{
    match v {
        Some(s) => s.clone(),
        None => String::from_str(default),
    }
}

impl AppConfig {
    /// Builds the configuration from the environment's variables, with a
    /// default for each optional one; the first malformed number is reported
    /// with its parse error.
    pub fn from_env(env: &EnvVars) -> (r: Result<AppConfig, IntParseError>)
        requires
            !config_panics(*env),
        ensures
            match config_number_failure(*env) {
                Some(e) => r == Err::<AppConfig, IntParseError>(e),
                None => r matches Ok(c) && config_matches(c, *env),
            },
    {
        let host = text_or(&env.http_host, "0.0.0.0");
        let port_text = text_or(&env.http_port, "8000");
        let port = match parse_u16(port_text.as_str()) {
            Ok(v) => v,
            Err(e) => return Err(e),
        };
        let environment = text_or(&env.rust_env, "development");
        let debug = match &env.rust_log {
            Some(s) => same_text(s.as_str(), "debug"),
            None => false,
        };
        let url = match &env.database_url {
            Some(u) => u.clone(),
            None => {
                assert(false);
                String::new()
            },
        };
        let pool_text = text_or(&env.pool_size, "10");
        let pool_size = match parse_u32(pool_text.as_str()) {
            Ok(v) => v,
            Err(e) => return Err(e),
        };
        let connect_text = text_or(&env.connect_timeout, "10");
        let connect_timeout = match parse_u64(connect_text.as_str()) {
            Ok(v) => v,
            Err(e) => return Err(e),
        };
        let idle_text = text_or(&env.idle_timeout, "60");
        let idle_timeout = match parse_u64(idle_text.as_str()) {
            Ok(v) => v,
            Err(e) => return Err(e),
        };
        let lifetime_text = text_or(&env.max_lifetime, "1800");
        let max_lifetime = match parse_u64(lifetime_text.as_str()) {
            Ok(v) => v,
            Err(e) => return Err(e),
        };
        let sslmode = text_or(&env.sslmode, "disable");
        let redis_url = text_or(&env.redis_url, "redis://localhost:6379");
        let secret = match &env.jwt_secret {
            Some(k) => k.clone(),
            None => {
                assert(false);
                String::new()
            },
        };
        let rust_log = text_or(&env.rust_log, "info");
        let prometheus_text = text_or(&env.monitoring_prometheus_port, "9490");
        let prometheus_port = match parse_u16(prometheus_text.as_str()) {
            Ok(v) => v,
            Err(e) => return Err(e),
        };
        Ok(AppConfig {
            app: AppSettings {
                name: String::from_str("rust-auth"),
                host,
                port,
                environment,
                debug,
            },
            database: DatabaseSettings {
                url,
                pool_size,
                connect_timeout,
                idle_timeout,
                max_lifetime,
                sslmode,
            },
            redis: RedisSettings { url: redis_url, pool_size: 20 },
            jwt: JwtSettings {
                secret,
                access_expiration: 900,
                refresh_expiration: 604800,
                issuer: String::from_str("rust-auth"),
                audience: String::from_str("asepharyana.my.id"),
            },
            observability: ObservabilitySettings { rust_log, prometheus_port },
        })
    }
}

/// The message with which loading the configuration stops on an unset
/// required variable, or `None` when it does not stop there.
pub fn unset_required_variable(env: &EnvVars) -> (r: Option<&'static str>)
    ensures
        r is Some <==> config_panics(*env),
        (port_value(*env) is Ok && env.database_url is None) ==> (r matches Some(m) && m@
            == "DATABASE_URL must be set"@),
        (config_panics(*env) && env.database_url is Some) ==> (r matches Some(m) && m@
            == "JWT_SECRET must be set"@),
{
    let port_text = text_or(&env.http_port, "8000");
    if parse_u16(port_text.as_str()).is_err() {
        return None;
    }
    if env.database_url.is_none() {
        return Some("DATABASE_URL must be set");
    }
    let pool_text = text_or(&env.pool_size, "10");
    let connect_text = text_or(&env.connect_timeout, "10");
    let idle_text = text_or(&env.idle_timeout, "60");
    let lifetime_text = text_or(&env.max_lifetime, "1800");
    if parse_u32(pool_text.as_str()).is_err() || parse_u64(connect_text.as_str()).is_err()
        || parse_u64(idle_text.as_str()).is_err() || parse_u64(lifetime_text.as_str()).is_err() {
        return None;
    }
    if env.jwt_secret.is_none() {
        Some("JWT_SECRET must be set")
    } else {
        None
    }
}

/// Holder of the process-wide configuration: empty until the first successful
/// initialization, and unchanged by later ones.
pub struct ConfigCell {
    value: Option<AppConfig>,
}

impl View for ConfigCell {
    type V = Option<AppConfig>;

    closed spec fn view(&self) -> Option<AppConfig> {
        self.value
    }
}

impl ConfigCell {
    /// An empty holder.
    pub fn new() -> (r: ConfigCell)
        ensures
            r@ is None,
    {
        ConfigCell { value: None }
    }

    /// Stores `config` if nothing is stored yet; otherwise hands it back and
    /// keeps what is stored.
    pub fn set(&mut self, config: AppConfig) -> (r: Result<(), AppConfig>)
        ensures
            old(self)@ is None ==> r is Ok && final(self)@ == Some(config),
            old(self)@ is Some ==> r == Err::<(), AppConfig>(config) && final(self)@ == old(self)@,
    {
        if self.value.is_some() {
            Err(config)
        } else {
            self.value = Some(config);
            Ok(())
        }
    }

    /// The stored configuration, if any.
    pub fn get(&self) -> (r: Option<&AppConfig>)
        ensures
            r == match self@ {
                Some(c) => Some(&c),
                None => None::<&AppConfig>,
            },
    {
        match &self.value {
            Some(c) => Some(c),
            None => None,
        }
    }

    /// Whether a configuration is stored.
    pub fn is_set(&self) -> (r: bool)
        ensures
            r == self@ is Some,
    {
        self.value.is_some()
    }
}

impl AppConfig {
    /// The configuration that was stored first.
    pub fn global(cell: &ConfigCell) -> (r: &AppConfig)
        requires
            cell@ is Some,
        ensures
            *r == cell@.unwrap(),
    {
        match cell.get() {
            Some(c) => c,
            None => {
                assert(false);
                cell.get().unwrap()
            },
        }
    }

    /// Loads the configuration from `env` and stores it unless one is stored
    /// already; a malformed number is reported and nothing is stored.
    pub fn init(cell: &mut ConfigCell, env: &EnvVars) -> (r: Result<(), IntParseError>)
        requires
            !config_panics(*env),
        ensures
            match config_number_failure(*env) {
                Some(e) => r == Err::<(), IntParseError>(e) && final(cell)@ == old(cell)@,
                None => {
                    &&& r is Ok
                    &&& old(cell)@ is Some ==> final(cell)@ == old(cell)@
                    &&& old(cell)@ is None ==> (final(cell)@ matches Some(c) && config_matches(
                        c,
                        *env,
                    ))
                },
            },
    {
        let config = AppConfig::from_env(env)?;
        let _ = cell.set(config);
        Ok(())
    }
}

} // verus!
