//! Service settings, with defaults for what is not set.

use vstd::prelude::*;
use crate::error::{AppError, ErrorKind};
use crate::keys::fails_with;
use crate::models::opt_view;
use crate::text::{chars_of, trim, trim_str};

verus! {

pub struct AppConfig {
    pub bind_addr: String,
    pub database_url: String,
    pub upstream_base_url: String,
    pub upstream_bearer_key: String,
}

/// `s` without trailing slashes (`str::trim_end_matches('/')`).
pub open spec fn trim_end_slashes(s: Seq<char>) -> Seq<char>
    decreases s.len(),
{
    if s.len() > 0 && s.last() == '/' {
        trim_end_slashes(s.drop_last())
    } else {
        s
    }
}

/// `str::trim_end_matches('/')`.
pub fn trim_trailing_slashes(s: &str) -> (r: &str)
    ensures
        r@ == trim_end_slashes(s@),
{
    let v = chars_of(s);
    let mut b = v.len();
    assert(v@.take(b as int) == v@);
    while b > 0 && v[b - 1] == '/'
        invariant
            b <= v@.len(),
            v@ == s@,
            trim_end_slashes(v@.take(b as int)) == trim_end_slashes(s@),
        decreases b,
    {
        assert(v@.take(b as int).drop_last() == v@.take(b - 1));
        b = b - 1;
    }
    assert(v@.take(b as int) == v@.subrange(0, b as int));
    s.substring_char(0, b)
}

/// The value of a setting, or its default.
pub open spec fn or_default(v: Option<Seq<char>>, default: Seq<char>) -> Seq<char> {
    match v {
        Some(s) => s,
        None => default,
    }
}

impl AppConfig {
    /// The settings from the values that are set: the listen address, database and upstream
    /// address default, the upstream address loses its trailing slashes, and the upstream
    /// key, trimmed, must be set and not empty.
    pub fn from_settings(
        bind_addr: Option<String>,
        database_url: Option<String>,
        upstream_base_url: Option<String>,
        upstream_bearer_key: Option<String>,
    ) -> (r: Result<AppConfig, AppError>)
        ensures
            upstream_bearer_key is None <==> fails_with(
                r,
                ErrorKind::Config,
                "missing env UPSTREAM_BEARER_KEY. set it in .env or process environment"@,
            ),
            (upstream_bearer_key is Some && trim(upstream_bearer_key->0@).len() == 0) <==> fails_with(
                r,
                ErrorKind::Config,
                "UPSTREAM_BEARER_KEY cannot be empty"@,
            ),
            r is Ok <==> (upstream_bearer_key is Some && trim(upstream_bearer_key->0@).len() > 0),
            r matches Ok(c) ==> {
                &&& c.bind_addr@ == or_default(opt_view(bind_addr), "127.0.0.1:8318"@)
                &&& c.database_url@ == or_default(opt_view(database_url), "sqlite://./data/admin.db"@)
                &&& c.upstream_base_url@ == trim_end_slashes(
                    or_default(opt_view(upstream_base_url), "http://localhost:8317"@),
                )
                &&& c.upstream_bearer_key@ == trim(upstream_bearer_key->0@)
            },
    {
        proof {
            reveal_strlit("missing env UPSTREAM_BEARER_KEY. set it in .env or process environment");
            reveal_strlit("UPSTREAM_BEARER_KEY cannot be empty");
            assert("missing env UPSTREAM_BEARER_KEY. set it in .env or process environment"@[0]
                != "UPSTREAM_BEARER_KEY cannot be empty"@[0]);
        }
        let bind_addr = match bind_addr {
            Some(s) => s,
            None => String::from_str("127.0.0.1:8318"),
        };
        let database_url = match database_url {
            Some(s) => s,
            None => String::from_str("sqlite://./data/admin.db"),
        };
        let upstream_base_url = match upstream_base_url {
            Some(s) => s,
            None => String::from_str("http://localhost:8317"),
        };
        let key = match upstream_bearer_key {
            Some(k) => k,
            None => {
                return Err(
                    AppError::config(
                        "missing env UPSTREAM_BEARER_KEY. set it in .env or process environment",
                    ),
                )
            },
        };
        let key = String::from_str(trim_str(key.as_str()));
        if key.as_str().unicode_len() == 0 {
            return Err(AppError::config("UPSTREAM_BEARER_KEY cannot be empty"));
        }
        Ok(AppConfig {
            bind_addr,
            database_url,
            upstream_base_url: String::from_str(trim_trailing_slashes(upstream_base_url.as_str())),
            upstream_bearer_key: key,
        })
    }
}

} // verus!
