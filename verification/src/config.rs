//! Configuration: the settings of the server, read from named variables
//! with defaults.

use vstd::prelude::*;
use vstd::string::StrSliceExecFns;
use crate::text::str_equal;

verus! {

/// The settings of the server.
#[derive(Debug, Clone)]
pub struct AppConfig {
    pub server: ServerConfig,
    pub database: DatabaseConfig,
    pub redis: RedisConfig,
    pub auth: AuthConfig,
    pub storage: StorageConfig,
    pub livekit: LiveKitConfig,
    pub rate_limit: RateLimitConfig,
}

/// Where the server listens.
#[derive(Debug, Clone)]
pub struct ServerConfig {
    pub host: String,
    pub port: u16,
}

/// The PostgreSQL database.
#[derive(Debug, Clone)]
pub struct DatabaseConfig {
    pub url: String,
}

/// The Redis server of sessions, presence, typing and rate limits.
#[derive(Debug, Clone)]
pub struct RedisConfig {
    pub url: String,
}

/// Secrets and token lifetimes (in seconds).
#[derive(Debug, Clone)]
pub struct AuthConfig {
    pub session_secret: String,
    pub password_pepper: String,
    pub jwt_secret: String,
    pub jwt_access_ttl_seconds: i64,
    pub jwt_refresh_ttl_seconds: i64,
}

/// Where uploaded files are kept.
#[derive(Debug, Clone)]
pub struct StorageConfig {
    pub provider: String,
    pub local_dir: Option<String>,
}

/// The LiveKit server of voice and video calls.
#[derive(Debug, Clone)]
pub struct LiveKitConfig {
    pub enabled: bool,
    pub url: String,
    pub api_key: String,
    pub api_secret: String,
}

/// How many requests of each kind a window admits.
#[derive(Debug, Clone, Copy)]
pub struct RateLimitConfig {
    pub login: u64,
    pub register: u64,
    pub message_send: u64,
    pub file_upload: u64,
    pub ws_connect: u64,
}

// ---------------------------------------------------------------------------
// Reading numbers and switches as the standard library does

pub open spec fn is_digit(c: char) -> bool {
    48 <= (c as u32) <= 57
}

pub open spec fn all_digits(s: Seq<char>) -> bool {
    forall|i: int| 0 <= i < s.len() ==> is_digit(#[trigger] s[i])
}

/// The value of a run of decimal digits.
pub open spec fn digits_value(s: Seq<char>) -> nat
    decreases s.len(),
{
    if s.len() == 0 {
        0
    } else {
        10 * digits_value(s.drop_last()) + ((s.last() as u32) - 48) as nat
    }
}

/// The value of an unsigned number's text: an optional `+`, then one or
/// more decimal digits.
pub open spec fn unsigned_value(s: Seq<char>) -> Option<nat> {
    let body = if s.len() > 0 && s[0] == '+' { s.drop_first() } else { s };
    if body.len() > 0 && all_digits(body) {
        Some(digits_value(body))
    } else {
        None
    }
}

/// The value of a signed number's text: an optional `-` or `+`, then one or
/// more decimal digits.
pub open spec fn signed_value(s: Seq<char>) -> Option<int> {
    if s.len() > 0 && s[0] == '-' {
        let body = s.drop_first();
        if body.len() > 0 && all_digits(body) {
            Some(-(digits_value(body) as int))
        } else {
            None
        }
    } else {
        match unsigned_value(s) {
            Some(v) => Some(v as int),
            None => None,
        }
    }
}

proof fn lemma_digits_value_grows(s: Seq<char>, k: int)
    requires
        0 <= k <= s.len(),
        all_digits(s),
    ensures
        digits_value(s.subrange(0, k)) <= digits_value(s),
    decreases s.len() - k,
{
    if k < s.len() {
        lemma_digits_value_grows(s, k + 1);
        assert(s.subrange(0, k + 1).drop_last() =~= s.subrange(0, k));
    } else {
        assert(s.subrange(0, k) =~= s);
    }
}

/// Reads the decimal digits of `s` from position `start` on, as long as
/// their value stays at most `max`.
fn read_digits(s: &str, start: usize, max: u64) -> (r: Option<u64>)
    requires
        start <= s@.len(),
    ensures
        ({
            let body = s@.subrange(start as int, s@.len() as int);
            r == if body.len() > 0 && all_digits(body) && digits_value(body) <= max {
                Some(digits_value(body) as u64)
            } else {
                None::<u64>
            }
        }),
{
    let n = s.unicode_len();
    let ghost body = s@.subrange(start as int, n as int);
    if start == n {
        return None;
    }
    let mut acc: u128 = 0;
    let mut i: usize = start;
    while i < n
        invariant
            n == s@.len(),
            start < n,
            start <= i <= n,
            body == s@.subrange(start as int, n as int),
            all_digits(s@.subrange(start as int, i as int)),
            acc == digits_value(s@.subrange(start as int, i as int)),
            acc <= max,
        decreases n - i,
    {
        let c = s.get_char(i);
        let code = c as u32;
        let ghost prefix = s@.subrange(start as int, (i + 1) as int);
        assert(prefix.drop_last() =~= s@.subrange(start as int, i as int));
        assert(prefix.last() == c);
        if code < 48 || code > 57 {
            assert(body[i - start] == c);
            return None;
        }
        acc = acc * 10 + (code - 48) as u128;
        assert(all_digits(prefix));
        if acc > max as u128 {
            proof {
                if all_digits(body) {
                    assert(body.subrange(0, i + 1 - start) =~= prefix);
                    lemma_digits_value_grows(body, i + 1 - start);
                }
            }
            return None;
        }
        i += 1;
    }
    assert(s@.subrange(start as int, n as int) =~= body);
    Some(acc as u64)
}

/// `u64`'s reading of a text.
pub fn parse_u64(s: &str) -> (r: Option<u64>)
    ensures
        r == match unsigned_value(s@) {
            Some(v) => if v <= u64::MAX { Some(v as u64) } else { None::<u64> },
            None => None::<u64>,
        },
{
    let start: usize = if s.unicode_len() > 0 && s.get_char(0) == '+' { 1 } else { 0 };
    assert(start == 1 ==> s@.drop_first() =~= s@.subrange(1, s@.len() as int));
    assert(start == 0 ==> s@ =~= s@.subrange(0, s@.len() as int));
    read_digits(s, start, u64::MAX)
}

/// `u16`'s reading of a text.
pub fn parse_u16(s: &str) -> (r: Option<u16>)
    ensures
        r == match unsigned_value(s@) {
            Some(v) => if v <= u16::MAX { Some(v as u16) } else { None::<u16> },
            None => None::<u16>,
        },
{
    let start: usize = if s.unicode_len() > 0 && s.get_char(0) == '+' { 1 } else { 0 };
    assert(start == 1 ==> s@.drop_first() =~= s@.subrange(1, s@.len() as int));
    assert(start == 0 ==> s@ =~= s@.subrange(0, s@.len() as int));
    match read_digits(s, start, u16::MAX as u64) {
        Some(v) => Some(v as u16),
        None => None,
    }
}

/// `i64`'s reading of a text.
pub fn parse_i64(s: &str) -> (r: Option<i64>)
    ensures
        r == match signed_value(s@) {
            Some(v) => if i64::MIN <= v <= i64::MAX { Some(v as i64) } else { None::<i64> },
            None => None::<i64>,
        },
{
    let n = s.unicode_len();
    if n > 0 && s.get_char(0) == '-' {
        assert(s@.drop_first() =~= s@.subrange(1, n as int));
        match read_digits(s, 1, 0x8000_0000_0000_0000u64) {
            Some(v) => {
                let r = (-(v as i128)) as i64;
                Some(r)
            },
            None => None,
        }
    } else {
        let start: usize = if n > 0 && s.get_char(0) == '+' { 1 } else { 0 };
        assert(start == 1 ==> s@.drop_first() =~= s@.subrange(1, n as int));
        assert(start == 0 ==> s@ =~= s@.subrange(0, n as int));
        match read_digits(s, start, i64::MAX as u64) {
            Some(v) => Some(v as i64),
            None => None,
        }
    }
}

/// `bool`'s reading of a text: exactly `true` or `false`.
pub fn parse_bool(s: &str) -> (r: Option<bool>)
    ensures
        r == if s@ == "true"@ {
            Some(true)
        } else if s@ == "false"@ {
            Some(false)
        } else {
            None::<bool>
        },
{
    if str_equal(s, "true") {
        Some(true)
    } else if str_equal(s, "false") {
        Some(false)
    } else {
        None
    }
}

// ---------------------------------------------------------------------------
// Settings with defaults

/// A text setting: its value, or the default when it is not set.
pub fn text_setting(value: Option<String>, default: &str) -> (s: String)
    ensures
        s@ == match value {
            Some(v) => v@,
            None => default@,
        },
{
    match value {
        Some(v) => v,
        None => default.to_owned(),
    }
}

/// A number setting: its value when it is set and reads as a number, the
/// default otherwise.
pub fn u64_setting(value: &Option<String>, default: u64) -> (n: u64)
    ensures
        n == match value {
            Some(v) => match unsigned_value(v@) {
                Some(x) => if x <= u64::MAX { x as u64 } else { default },
                None => default,
            },
            None => default,
        },
{
    match value {
        Some(v) => match parse_u64(v.as_str()) {
            Some(x) => x,
            None => default,
        },
        None => default,
    }
}

/// A signed number setting: its value when it is set and reads as a
/// number, the default otherwise.
pub fn i64_setting(value: &Option<String>, default: i64) -> (n: i64)
    ensures
        n == match value {
            Some(v) => match signed_value(v@) {
                Some(x) => if i64::MIN <= x <= i64::MAX { x as i64 } else { default },
                None => default,
            },
            None => default,
        },
{
    match value {
        Some(v) => match parse_i64(v.as_str()) {
            Some(x) => x,
            None => default,
        },
        None => default,
    }
}

/// A switch setting: its value when it is set and reads as `true` or
/// `false`, the default otherwise.
pub fn bool_setting(value: &Option<String>, default: bool) -> (b: bool)
    ensures
        b == match value {
            Some(v) => if v@ == "true"@ {
                true
            } else if v@ == "false"@ {
                false
            } else {
                default
            },
            None => default,
        },
{
    match value {
        Some(v) => match parse_bool(v.as_str()) {
            Some(x) => x,
            None => default,
        },
        None => default,
    }
}

/// The variables that configure the server, as the environment gives them.
#[derive(Debug, Clone)]
pub struct ConfigVars {
    pub server_host: Option<String>,
    pub server_port: Option<String>,
    pub database_url: Option<String>,
    pub redis_url: Option<String>,
    pub session_secret: Option<String>,
    pub password_pepper: Option<String>,
    pub jwt_secret: Option<String>,
    pub jwt_access_ttl_seconds: Option<String>,
    pub jwt_refresh_ttl_seconds: Option<String>,
    pub storage_provider: Option<String>,
    pub local_storage_dir: Option<String>,
    pub livekit_enabled: Option<String>,
    pub livekit_url: Option<String>,
    pub livekit_api_key: Option<String>,
    pub livekit_api_secret: Option<String>,
    pub rate_limit_login: Option<String>,
    pub rate_limit_register: Option<String>,
    pub rate_limit_message_send: Option<String>,
    pub rate_limit_file_upload: Option<String>,
    pub rate_limit_ws_connect: Option<String>,
}

/// The port setting: `8080` when unset; a value that is not a port is an error.
pub open spec fn port_of(value: Option<String>) -> Option<u16> {
    match value {
        Some(v) => match unsigned_value(v@) {
            Some(x) => if x <= u16::MAX { Some(x as u16) } else { None },
            None => None,
        },
        None => Some(8080u16),
    }
}

fn required(value: Option<String>, message: &str) -> (r: Result<String, String>)
    ensures
        match value {
            Some(v) => r is Ok && r->Ok_0@ == v@,
            None => r is Err && r->Err_0@ == message@,
        },
{
    match value {
        Some(v) => Ok(v),
        None => Err(message.to_owned()),
    }
}

impl AppConfig {
    /// The configuration that the variables give. The port must be a number
    /// and the database, Redis, session, pepper and token secrets must be
    /// set; the first that is not is reported. Everything else has a default.
    pub fn from_vars(vars: ConfigVars) -> (r: Result<AppConfig, String>)
        ensures
            port_of(vars.server_port) is None ==> r is Err && r->Err_0@ == "SERVER_PORT must be a number"@,
            port_of(vars.server_port) is Some && vars.database_url is None ==> r is Err && r->Err_0@
                == "DATABASE_URL must be set"@,
            port_of(vars.server_port) is Some && vars.database_url is Some && vars.redis_url is None ==> r is Err
                && r->Err_0@ == "REDIS_URL must be set"@,
            port_of(vars.server_port) is Some && vars.database_url is Some && vars.redis_url is Some
                && vars.session_secret is None ==> r is Err && r->Err_0@ == "SESSION_SECRET must be set"@,
            port_of(vars.server_port) is Some && vars.database_url is Some && vars.redis_url is Some
                && vars.session_secret is Some && vars.password_pepper is None ==> r is Err && r->Err_0@
                == "PASSWORD_PEPPER must be set"@,
            port_of(vars.server_port) is Some && vars.database_url is Some && vars.redis_url is Some
                && vars.session_secret is Some && vars.password_pepper is Some && vars.jwt_secret is None ==> r is Err
                && r->Err_0@ == "JWT_SECRET must be set"@,
            r is Ok <==> port_of(vars.server_port) is Some && vars.database_url is Some && vars.redis_url is Some
                && vars.session_secret is Some && vars.password_pepper is Some && vars.jwt_secret is Some,
            r matches Ok(c) ==> {
                &&& c.server.host@ == match vars.server_host {
                    Some(v) => v@,
                    None => "0.0.0.0"@,
                }
                &&& c.server.port == port_of(vars.server_port)->0
                &&& c.database.url@ == vars.database_url->0@
                &&& c.redis.url@ == vars.redis_url->0@
                &&& c.auth.session_secret@ == vars.session_secret->0@
                &&& c.auth.password_pepper@ == vars.password_pepper->0@
                &&& c.auth.jwt_secret@ == vars.jwt_secret->0@
                &&& c.auth.jwt_access_ttl_seconds == match vars.jwt_access_ttl_seconds {
                    Some(v) => match signed_value(v@) {
                        Some(x) => if i64::MIN <= x <= i64::MAX { x as i64 } else { 900i64 },
                        None => 900i64,
                    },
                    None => 900i64,
                }
                &&& c.auth.jwt_refresh_ttl_seconds == match vars.jwt_refresh_ttl_seconds {
                    Some(v) => match signed_value(v@) {
                        Some(x) => if i64::MIN <= x <= i64::MAX { x as i64 } else { 2592000i64 },
                        None => 2592000i64,
                    },
                    None => 2592000i64,
                }
                &&& c.storage.provider@ == match vars.storage_provider {
                    Some(v) => v@,
                    None => "local"@,
                }
                &&& c.storage.local_dir == vars.local_storage_dir
                &&& c.livekit.enabled == match vars.livekit_enabled {
                    Some(v) => v@ == "true"@,
                    None => false,
                }
                &&& c.livekit.url@ == match vars.livekit_url {
                    Some(v) => v@,
                    None => "ws://localhost:7880"@,
                }
                &&& c.livekit.api_key@ == match vars.livekit_api_key {
                    Some(v) => v@,
                    None => "devkey"@,
                }
                &&& c.livekit.api_secret@ == match vars.livekit_api_secret {
                    Some(v) => v@,
                    None => "secret"@,
                }
                &&& c.rate_limit.login == match vars.rate_limit_login {
                    Some(v) => match unsigned_value(v@) {
                        Some(x) => if x <= u64::MAX { x as u64 } else { 5u64 },
                        None => 5u64,
                    },
                    None => 5u64,
                }
                &&& c.rate_limit.register == match vars.rate_limit_register {
                    Some(v) => match unsigned_value(v@) {
                        Some(x) => if x <= u64::MAX { x as u64 } else { 5u64 },
                        None => 5u64,
                    },
                    None => 5u64,
                }
                &&& c.rate_limit.message_send == match vars.rate_limit_message_send {
                    Some(v) => match unsigned_value(v@) {
                        Some(x) => if x <= u64::MAX { x as u64 } else { 30u64 },
                        None => 30u64,
                    },
                    None => 30u64,
                }
                &&& c.rate_limit.file_upload == match vars.rate_limit_file_upload {
                    Some(v) => match unsigned_value(v@) {
                        Some(x) => if x <= u64::MAX { x as u64 } else { 10u64 },
                        None => 10u64,
                    },
                    None => 10u64,
                }
                &&& c.rate_limit.ws_connect == match vars.rate_limit_ws_connect {
                    Some(v) => match unsigned_value(v@) {
                        Some(x) => if x <= u64::MAX { x as u64 } else { 20u64 },
                        None => 20u64,
                    },
                    None => 20u64,
                }
            },
    {
        let host = text_setting(vars.server_host, "0.0.0.0");
        let port = match &vars.server_port {
            Some(v) => parse_u16(v.as_str()),
            None => Some(8080u16),
        };
        let port = match port {
            Some(p) => p,
            None => return Err("SERVER_PORT must be a number".to_owned()),
        };
        let database_url = required(vars.database_url, "DATABASE_URL must be set")?;
        let redis_url = required(vars.redis_url, "REDIS_URL must be set")?;
        let session_secret = required(vars.session_secret, "SESSION_SECRET must be set")?;
        let password_pepper = required(vars.password_pepper, "PASSWORD_PEPPER must be set")?;
        let jwt_secret = required(vars.jwt_secret, "JWT_SECRET must be set")?;
        let jwt_access_ttl_seconds = i64_setting(&vars.jwt_access_ttl_seconds, 900);
        let jwt_refresh_ttl_seconds = i64_setting(&vars.jwt_refresh_ttl_seconds, 2592000);
        let provider = text_setting(vars.storage_provider, "local");
        let enabled = bool_setting(&vars.livekit_enabled, false);
        let livekit_url = text_setting(vars.livekit_url, "ws://localhost:7880");
        let api_key = text_setting(vars.livekit_api_key, "devkey");
        let api_secret = text_setting(vars.livekit_api_secret, "secret");
        let rate_limit = RateLimitConfig {
            login: u64_setting(&vars.rate_limit_login, 5),
            register: u64_setting(&vars.rate_limit_register, 5),
            message_send: u64_setting(&vars.rate_limit_message_send, 30),
            file_upload: u64_setting(&vars.rate_limit_file_upload, 10),
            ws_connect: u64_setting(&vars.rate_limit_ws_connect, 20),
        };
        Ok(AppConfig {
            server: ServerConfig { host, port },
            database: DatabaseConfig { url: database_url },
            redis: RedisConfig { url: redis_url },
            auth: AuthConfig {
                session_secret,
                password_pepper,
                jwt_secret,
                jwt_access_ttl_seconds,
                jwt_refresh_ttl_seconds,
            },
            storage: StorageConfig { provider, local_dir: vars.local_storage_dir },
            livekit: LiveKitConfig { enabled, url: livekit_url, api_key, api_secret },
            rate_limit,
        })
    }
}

} // verus!
