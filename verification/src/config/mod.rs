//! Service configuration: sections of the TOML file, their defaults, and
//! the environment variables that override them.
use vstd::prelude::*;
use core::time::Duration;
use crate::kafka::{duration_of_secs, secs};
use crate::text::{chars_of, owned, str_eq, string_from, to_lowercase, unicode_lowercase};

pub mod aws;

verus! {

/// Database credentials.
pub struct OracleConnectInfo {
    pub user: String,
    pub password: String,
    pub connect_string: String,
}

/// Request timeouts by category, in seconds.
pub struct AppTimeouts {
    pub quick: u64,
    pub normal: u64,
    pub long: u64,
    pub upload: u64,
}

impl Default for AppTimeouts {
    fn default() -> (r: AppTimeouts)
        ensures
            r.quick == 5 && r.normal == 15 && r.long == 60 && r.upload == 120,
    {
        AppTimeouts { quick: 5, normal: 15, long: 60, upload: 120 }
    }
}

impl AppTimeouts {
    /// The quick timeout.
    pub fn quick_duration(&self) -> (r: Duration)
        ensures
            r == duration_of_secs(self.quick as int),
    {
        secs(self.quick)
    }

    /// The normal timeout.
    pub fn normal_duration(&self) -> (r: Duration)
        ensures
            r == duration_of_secs(self.normal as int),
    {
        secs(self.normal)
    }

    /// The long timeout.
    pub fn long_duration(&self) -> (r: Duration)
        ensures
            r == duration_of_secs(self.long as int),
    {
        secs(self.long)
    }

    /// The upload timeout.
    pub fn upload_duration(&self) -> (r: Duration)
        ensures
            r == duration_of_secs(self.upload as int),
    {
        secs(self.upload)
    }
}

/// The schedule of a background job.
pub struct JobConfig {
    pub cron: String,
    pub interval: u64,
    pub timeout: u64,
    pub concurrency: u32,
    pub enabled: bool,
}

impl Default for JobConfig {
    fn default() -> (r: JobConfig)
        ensures
            r.cron@.len() == 0 && r.interval == 0 && r.timeout == 60 && r.concurrency == 0
                && !r.enabled,
    {
        JobConfig { cron: String::new(), interval: 0, timeout: 60, concurrency: 0, enabled: false }
    }
}

impl JobConfig {
    /// A job configuration from the keys a file sets, each missing key taking
    /// its default (no schedule, no interval, a 60 s timeout, disabled).
    pub fn from_keys(
        cron: Option<String>,
        interval: Option<u64>,
        timeout: Option<u64>,
        concurrency: Option<u32>,
        enabled: Option<bool>,
    ) -> (r: JobConfig)
        ensures
            r.cron@ == (match cron {
                Some(c) => c@,
                None => Seq::<char>::empty(),
            }),
            r.interval == (match interval {
                Some(v) => v,
                None => 0,
            }),
            r.timeout == (match timeout {
                Some(v) => v,
                None => 60,
            }),
            r.concurrency == (match concurrency {
                Some(v) => v,
                None => 0,
            }),
            r.enabled == (match enabled {
                Some(v) => v,
                None => false,
            }),
    {
        JobConfig {
            cron: match cron {
                Some(c) => c,
                None => String::new(),
            },
            interval: match interval {
                Some(v) => v,
                None => 0,
            },
            timeout: match timeout {
                Some(v) => v,
                None => 60,
            },
            concurrency: match concurrency {
                Some(v) => v,
                None => 0,
            },
            enabled: match enabled {
                Some(v) => v,
                None => false,
            },
        }
    }
}

/// The address of a downstream HTTP service.
pub struct ServiceConfig {
    pub host: String,
    pub base_path: String,
}

/// The database pool configuration.
pub struct OracleConfig {
    pub user: String,
    pub password: String,
    pub connect_string: String,
    pub pool_min: u32,
    pub max_open_conn: u32,
    pub max_idle_conn: u32,
    pub max_life_time: u64,
    pub max_idle_time: u64,
    pub enable_stats_monitor: bool,
    pub stats_interval: u64,
    pub read_timeout: u64,
    pub write_timeout: u64,
}

/// The Redis configuration.
pub struct RedisConfig {
    pub addr: Vec<String>,
    pub password: String,
    pub master_name: String,
    pub db: i64,
    pub dbs: Vec<RedisDbEntry>,
}

/// One Redis database of a multi-database setup.
pub struct RedisDbEntry {
    pub db: i64,
    pub pool_size: u32,
    pub set_default_expiration: i64,
}

/// The logger configuration.
pub struct LogConfig {
    pub name: String,
    pub service_name: String,
    pub level: String,
    pub encoding: String,
    pub mode: String,
    pub time_format: String,
    pub path: String,
    pub rotation: String,
    pub max_size: u32,
    pub max_backups: u32,
    pub keep_days: u32,
    pub compress: bool,
    pub stat: bool,
    pub buffer_size: u32,
    pub buffer_flush_interval: u32,
    pub env: String,
    pub output_path: String,
}

impl Default for LogConfig {
    fn default() -> (r: LogConfig)
        ensures
            r.name@ == "tcg-ucs-fe"@,
            r.service_name@ == "TCG-UCS-FE"@,
            r.level@ == "info"@,
            r.encoding@ == "json"@,
            r.mode@ == "file"@,
            r.time_format@ == "2006-01-02 15:04:05.000"@,
            r.path@ == "logs"@,
            r.rotation@ == "size"@,
            r.max_size == 500,
            r.max_backups == 10,
            r.keep_days == 5,
            r.compress,
            r.stat,
            r.buffer_size == 30,
            r.buffer_flush_interval == 50,
            r.env@ == "pro"@,
            r.output_path@.len() == 0,
    {
        LogConfig {
            name: owned("tcg-ucs-fe"),
            service_name: owned("TCG-UCS-FE"),
            level: owned("info"),
            encoding: owned("json"),
            mode: owned("file"),
            time_format: owned("2006-01-02 15:04:05.000"),
            path: owned("logs"),
            rotation: owned("size"),
            max_size: 500,
            max_backups: 10,
            keep_days: 5,
            compress: true,
            stat: true,
            buffer_size: 30,
            buffer_flush_interval: 50,
            env: owned("pro"),
            output_path: String::new(),
        }
    }
}

/// The profiling endpoint.
pub struct PprofConfig {
    pub enabled: bool,
    pub host: String,
    pub port: u16,
}

/// The in-process cache.
pub struct BigCacheConfig {
    pub entry_expire_seconds: u64,
}

/// Service discovery.
pub struct ConsulConfig {
    pub key: String,
    pub hosts: Vec<String>,
}

// ── Defaults of keys a file leaves out ───────────────────────────────────────

/// The default span exporter: `none`.
pub fn default_batcher() -> (r: String)
    ensures
        r@ == "none"@,
{
    owned("none")
}

pub fn default_300() -> (r: u64)
    ensures
        r == 300,
{
    300
}

pub fn default_30_u64() -> (r: u64)
    ensures
        r == 30,
{
    30
}

pub fn default_60_u64() -> (r: u64)
    ensures
        r == 60,
{
    60
}

pub fn default_15_u64() -> (r: u64)
    ensures
        r == 15,
{
    15
}

pub fn default_100() -> (r: u32)
    ensures
        r == 100,
{
    100
}

pub fn default_info_str() -> (r: String)
    ensures
        r@ == "info"@,
{
    owned("info")
}

pub fn default_json_str() -> (r: String)
    ensures
        r@ == "json"@,
{
    owned("json")
}

pub fn default_log_name() -> (r: String)
    ensures
        r@ == "tcg-ucs-fe"@,
{
    owned("tcg-ucs-fe")
}

pub fn default_service_name() -> (r: String)
    ensures
        r@ == "TCG-UCS-FE"@,
{
    owned("TCG-UCS-FE")
}

pub fn default_log_mode() -> (r: String)
    ensures
        r@ == "file"@,
{
    owned("file")
}

pub fn default_time_format() -> (r: String)
    ensures
        r@ == "2006-01-02 15:04:05.000"@,
{
    owned("2006-01-02 15:04:05.000")
}

pub fn default_rotation() -> (r: String)
    ensures
        r@ == "size"@,
{
    owned("size")
}

pub fn default_500() -> (r: u32)
    ensures
        r == 500,
{
    500
}

pub fn default_10() -> (r: u32)
    ensures
        r == 10,
{
    10
}

pub fn default_5() -> (r: u32)
    ensures
        r == 5,
{
    5
}

pub fn default_true() -> (r: bool)
    ensures
        r,
{
    true
}

pub fn default_30_u32() -> (r: u32)
    ensures
        r == 30,
{
    30
}

pub fn default_50_u32() -> (r: u32)
    ensures
        r == 50,
{
    50
}

// ── Environment overrides ────────────────────────────────────────────────────

/// A setting an `APP__<SECTION>__<KEY>` variable can override.
pub enum ConfigOverride {
    OracleUser,
    OraclePassword,
    OracleConnectString,
    RedisPassword,
    LogLevel,
    LogEncoding,
}

/// The setting a lower-cased section and key name.
#[verifier::opaque]
pub open spec fn override_for(section: Seq<char>, key: Seq<char>) -> Option<ConfigOverride> {
    if section == "oracle"@ {
        if key == "user"@ {
            Some(ConfigOverride::OracleUser)
        } else if key == "passwd"@ || key == "password"@ {
            Some(ConfigOverride::OraclePassword)
        } else if key == "addr_connect_stringer"@ || key == "connect_string"@ {
            Some(ConfigOverride::OracleConnectString)
        } else {
            None
        }
    } else if section == "redis"@ {
        if key == "password"@ {
            Some(ConfigOverride::RedisPassword)
        } else {
            None
        }
    } else if section == "log"@ {
        if key == "level"@ {
            Some(ConfigOverride::LogLevel)
        } else if key == "encoding"@ {
            Some(ConfigOverride::LogEncoding)
        } else {
            None
        }
    } else {
        None
    }
}

/// `s` holds `__` at position `i`.
pub open spec fn pair_at(s: Seq<char>, i: int) -> bool {
    0 <= i && i + 1 < s.len() && s[i] == '_' && s[i + 1] == '_'
}

/// The first position of `__` in `s`.
pub open spec fn double_underscore_at(s: Seq<char>) -> Option<int> {
    if exists|i: int| #[trigger] pair_at(s, i) {
        Some(choose|i: int| pair_at(s, i) && forall|j: int| 0 <= j < i ==> !#[trigger] pair_at(s, j))
    } else {
        None
    }
}

/// The setting a variable overrides: its name starts with `APP__`, the rest
/// splits at the first `__` into a section and a key, and the two, lower-cased,
/// name a setting.
pub open spec fn env_override(name: Seq<char>) -> Option<ConfigOverride> {
    let prefix = "APP__"@;
    if name.len() < 5 || name.subrange(0, 5) != prefix {
        None
    } else {
        let rest = name.subrange(5, name.len() as int);
        match double_underscore_at(rest) {
            None => None,
            Some(i) => override_for(
                unicode_lowercase(rest.subrange(0, i)),
                unicode_lowercase(rest.subrange(i + 2, rest.len() as int)),
            ),
        }
    }
}

proof fn lemma_first_pair(s: Seq<char>, i: int)
    requires
        pair_at(s, i),
        forall|j: int| 0 <= j < i ==> !#[trigger] pair_at(s, j),
    ensures
        double_underscore_at(s) == Some(i),
{
    let k = choose|k: int| pair_at(s, k) && forall|j: int| 0 <= j < k ==> !#[trigger] pair_at(s, j);
    assert(pair_at(s, k));
    if k < i {
    } else if k > i {
        assert(pair_at(s, i));
    }
}

fn copy_range(v: &Vec<char>, from: usize, to: usize) -> (r: Vec<char>)
    requires
        from <= to <= v.len(),
    ensures
        r@ == v@.subrange(from as int, to as int),
{
    let mut r: Vec<char> = Vec::new();
    let mut k: usize = from;
    while k < to
        invariant
            from <= k <= to <= v.len(),
            r@ == v@.subrange(from as int, k as int),
        decreases to - k,
    {
        r.push(v[k]);
        assert(v@.subrange(from as int, (k + 1) as int) =~= v@.subrange(from as int, k as int).push(v@[k as int]));
        k = k + 1;
    }
    r
}

/// The setting an environment variable overrides, if any.
#[verifier::rlimit(50)]
pub fn env_override_target(name: &str) -> (r: Option<ConfigOverride>)
    ensures
        r == env_override(name@),
{
    let v = chars_of(name);
    proof {
        reveal_strlit("APP__");
        assert("APP__"@ =~= seq!['A', 'P', 'P', '_', '_']);
    }
    if v.len() < 5 {
        return None;
    }
    if !(v[0] == 'A' && v[1] == 'P' && v[2] == 'P' && v[3] == '_' && v[4] == '_') {
        assert(v@.subrange(0, 5) != "APP__"@) by {
            if v@.subrange(0, 5) == "APP__"@ {
                assert(v@.subrange(0, 5)[0] == v@[0]);
                assert(v@.subrange(0, 5)[1] == v@[1]);
                assert(v@.subrange(0, 5)[2] == v@[2]);
                assert(v@.subrange(0, 5)[3] == v@[3]);
                assert(v@.subrange(0, 5)[4] == v@[4]);
            }
        }
        return None;
    }
    assert(v@.subrange(0, 5) =~= "APP__"@);
    let rest = copy_range(&v, 5, v.len());
    if rest.len() < 2 {
        assert(!exists|k: int| #[trigger] pair_at(rest@, k));
        return None;
    }
    let mut i: usize = 0;
    while i < rest.len() - 1 && !(rest[i] == '_' && rest[i + 1] == '_')
        invariant
            rest.len() >= 2,
            i <= rest.len() - 1,
            forall|j: int| 0 <= j < i ==> !#[trigger] pair_at(rest@, j),
        decreases rest.len() - i,
    {
        i = i + 1;
    }
    if i >= rest.len() - 1 {
        assert(!exists|k: int| #[trigger] pair_at(rest@, k));
        return None;
    }
    proof {
        lemma_first_pair(rest@, i as int);
    }
    let section = string_from(&copy_range(&rest, 0, i));
    let key = string_from(&copy_range(&rest, i + 2, rest.len()));
    override_target(section.as_str(), key.as_str())
}

/// The setting a section and key name, compared lower-cased.
fn override_target(section: &str, key: &str) -> (r: Option<ConfigOverride>)
    ensures
        r == override_for(unicode_lowercase(section@), unicode_lowercase(key@)),
{
    reveal(override_for);
    let s = to_lowercase(section);
    let k = to_lowercase(key);
    let sv = s.as_str();
    let kv = k.as_str();
    if str_eq(sv, "oracle") {
        if str_eq(kv, "user") {
            Some(ConfigOverride::OracleUser)
        } else if str_eq(kv, "passwd") || str_eq(kv, "password") {
            Some(ConfigOverride::OraclePassword)
        } else if str_eq(kv, "addr_connect_stringer") || str_eq(kv, "connect_string") {
            Some(ConfigOverride::OracleConnectString)
        } else {
            None
        }
    } else if str_eq(sv, "redis") {
        if str_eq(kv, "password") {
            Some(ConfigOverride::RedisPassword)
        } else {
            None
        }
    } else if str_eq(sv, "log") {
        if str_eq(kv, "level") {
            Some(ConfigOverride::LogLevel)
        } else if str_eq(kv, "encoding") {
            Some(ConfigOverride::LogEncoding)
        } else {
            None
        }
    } else {
        None
    }
}

/// The secrets-manager entry holding the database credentials of an
/// environment (named in any case): `dev`, `sit` or `prod`.
pub open spec fn secret_name_spec(env: Seq<char>) -> Option<Seq<char>> {
    let e = unicode_lowercase(env);
    if e == "dev"@ {
        Some("tcg-uad/db/go-ucs-fe/dev"@)
    } else if e == "sit"@ {
        Some("tcg-uad/db/go-ucs-fe/sit"@)
    } else if e == "prod"@ {
        Some("tcg-uad/db/go-ucs-fe"@)
    } else {
        None
    }
}

/// The secrets-manager entry of an environment, or the lower-cased name of
/// an environment that has none.
pub fn secret_name_for_env(env: &str) -> (r: Result<&'static str, String>)
    ensures
        match r {
            Ok(n) => secret_name_spec(env@) == Some(n@),
            Err(e) => secret_name_spec(env@) is None && e@ == unicode_lowercase(env@),
        },
{
    let e = to_lowercase(env);
    if str_eq(e.as_str(), "dev") {
        Ok("tcg-uad/db/go-ucs-fe/dev")
    } else if str_eq(e.as_str(), "sit") {
        Ok("tcg-uad/db/go-ucs-fe/sit")
    } else if str_eq(e.as_str(), "prod") {
        Ok("tcg-uad/db/go-ucs-fe")
    } else {
        Err(e)
    }
}

/// The configuration file of an environment: `config/<env>.toml`.
pub fn config_path(env: &str) -> (r: String)
    ensures
        r@ == "config/"@ + env@ + ".toml"@,
{
    let mut r = owned("config/");
    r.append(env);
    r.append(".toml");
    r
}

} // verus!
