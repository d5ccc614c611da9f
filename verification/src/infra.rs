//! Connection settings derived from the configuration: Redis addresses and
//! database keys, and the sizes of the Oracle pool's warm-up.
use vstd::prelude::*;
use crate::text::{concat, i64_text, int_text, owned};

verus! {

/// The Redis address used when none is configured.
pub const DEFAULT_REDIS_ADDR: &'static str = "127.0.0.1:6379";

/// The address of the first configured Redis node, else the default one.
pub fn redis_addr<'a>(addrs: &'a Vec<String>) -> (r: &'a str)
    ensures
        r@ == (if addrs@.len() > 0 { addrs@[0]@ } else { DEFAULT_REDIS_ADDR@ }),
{
    if addrs.len() > 0 {
        addrs[0].as_str()
    } else {
        DEFAULT_REDIS_ADDR
    }
}

/// The URL of one Redis database: `redis://{addr}/{db}`, with
/// `:{password}@` before the address when a password is set.
pub fn redis_url(addr: &str, password: &str, db: i64) -> (r: String)
    ensures
        r@ == (if password@.len() == 0 {
            "redis://"@ + addr@ + "/"@ + int_text(db as int)
        } else {
            "redis://:"@ + password@ + "@"@ + addr@ + "/"@ + int_text(db as int)
        }),
{
    let mut r = if password.is_empty() {
        owned("redis://")
    } else {
        let mut p = concat("redis://:", password);
        p.append("@");
        p
    };
    r.append(addr);
    r.append("/");
    let d = i64_text(db);
    r.append(d.as_str());
    r
}

/// The key a Redis database is kept under: `dbidx:{db}`.
pub fn db_instance_key(db: i64) -> (r: String)
    ensures
        r@ == "dbidx:"@ + int_text(db as int),
{
    let d = i64_text(db);
    concat("dbidx:", d.as_str())
}

/// The default expiration of a Redis database in seconds: the magnitude of
/// the configured value.
pub fn default_expiration_secs(configured: i64) -> (r: u64)
    ensures
        r == (if configured < 0 { -configured } else { configured as int }),
{
    if configured == i64::MIN {
        9223372036854775808u64
    } else if configured < 0 {
        (-configured) as u64
    } else {
        configured as u64
    }
}

/// The pool's minimum of idle connections: the configured one, else 4.
pub fn pool_min_idle(configured: u32) -> (r: u32)
    ensures
        r == (if configured > 0 { configured } else { 4 }),
{
    if configured > 0 {
        configured
    } else {
        4
    }
}

/// How many connections are opened at start: the pool's minimum, kept
/// between 2 and 8.
pub fn warm_count(pool_min: u32) -> (r: usize)
    ensures
        r == (if pool_min < 2 { 2 } else if pool_min > 8 { 8 } else { pool_min as int }),
{
    if pool_min < 2 {
        2
    } else if pool_min > 8 {
        8
    } else {
        pool_min as usize
    }
}

/// The interval of the pool monitor in seconds: the configured one, else 60.
pub fn monitor_interval_secs(configured: u64) -> (r: u64)
    ensures
        r == (if configured == 0 { 60 } else { configured }),
{
    if configured == 0 {
        60
    } else {
        configured
    }
}

} // verus!
