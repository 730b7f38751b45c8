//! Startup decisions made before the dashboard runs: the service picker's
//! rows, whether connection hints suppress the picker, the remote config
//! URL's precedence and its token's source, and the per-target history
//! key.
use std::collections::HashMap;
use vstd::prelude::*;
use crate::app::PickerEntry;
use crate::readonly::env_lookup;
use crate::text::{push_char, push_decimal, push_str};

verus! {

/// What the services file says about one service (display-safe: name,
/// host and user only).
pub struct ServiceInfo {
    pub name: String,
    pub host: Option<String>,
    pub user: Option<String>,
}

/// A field as the file says it, `?` when the entry leaves it out.
pub open spec fn or_question(v: Option<String>) -> Seq<char> {
    match v {
        Some(s) => s@,
        None => "?"@,
    }
}

/// The picker row of one service: its name, `user@host` as written, and
/// the service to resolve.
pub open spec fn service_row(e: PickerEntry, s: ServiceInfo) -> bool {
    &&& e.name@ == s.name@
    &&& e.detail@ == or_question(s.user) + "@"@ + or_question(s.host)
    &&& e.service matches Some(n) && n@ == s.name@
}

/// The trailing default row: `localhost`, `(default)`, no service.
pub open spec fn default_row(e: PickerEntry) -> bool {
    e.name@ == "localhost"@ && e.detail@ == "(default)"@ && e.service is None
}

fn copy_str(s: &str) -> (r: String)
    ensures
        r@ == s@,
{
    let mut r = String::new();
    push_str(&mut r, s);
    r
}

fn field_or_question(v: &Option<String>) -> (r: String)
    ensures
        r@ == or_question(*v),
{
    proof {
        reveal_strlit("?");
    }
    match v {
        Some(s) => copy_str(s.as_str()),
        None => copy_str("?"),
    }
}

/// The service picker's rows: one per service, in order, then the
/// default.
pub fn picker_entries(services: Vec<ServiceInfo>) -> (r: Vec<PickerEntry>)
    ensures
        r@.len() == services@.len() + 1,
        forall|i: int| 0 <= i < services@.len() ==> service_row(#[trigger] r@[i], services@[i]),
        default_row(r@[services@.len() as int]),
{
    let n = services.len();
    let mut out: Vec<PickerEntry> = Vec::new();
    let mut i: usize = 0;
    while i < n
        invariant
            n == services@.len(),
            0 <= i <= n,
            out@.len() == i,
            forall|j: int| 0 <= j < i ==> service_row(#[trigger] out@[j], services@[j]),
        decreases n - i,
    {
        let s = &services[i];
        let mut detail = field_or_question(&s.user);
        push_char(&mut detail, '@');
        let host = field_or_question(&s.host);
        push_str(&mut detail, host.as_str());
        proof {
            assert(detail@ =~= or_question(s.user) + "@"@ + or_question(s.host)) by {
                reveal_strlit("@");
            }
        }
        out.push(PickerEntry { name: copy_str(s.name.as_str()), detail, service: Some(copy_str(s.name.as_str())) });
        i = i + 1;
    }
    proof {
        reveal_strlit("localhost");
        reveal_strlit("(default)");
    }
    out.push(PickerEntry { name: copy_str("localhost"), detail: copy_str("(default)"), service: None });
    out
}

/// Set to a non-empty value.
pub open spec fn non_empty(v: Option<&str>) -> bool {
    v matches Some(s) && s@.len() > 0
}

/// The environment variable is set to a non-empty value.
pub open spec fn env_set(env: Map<Seq<char>, Seq<char>>, key: Seq<char>) -> bool {
    env.contains_key(key) && env[key].len() > 0
}

/// No connection hint bypasses the service picker: no `--dsn`, no
/// `--service` (empty counts as unset), and none of `PGHOST`, `PGSERVICE`,
/// `PG_LENS_SERVICE`, `PG_LENS_DSN` set to a non-empty value.
pub open spec fn no_connection_hints(dsn: Option<&str>, service: Option<&str>, env: Map<Seq<char>, Seq<char>>) -> bool {
    &&& !non_empty(dsn)
    &&& !non_empty(service)
    &&& !env_set(env, "PGHOST"@)
    &&& !env_set(env, "PGSERVICE"@)
    &&& !env_set(env, "PG_LENS_SERVICE"@)
    &&& !env_set(env, "PG_LENS_DSN"@)
}

fn env_has_value(env: &HashMap<String, String>, key: &str) -> (r: bool)
    ensures
        r == env_set(env.deep_view(), key@),
{
    match env_lookup(env, key) {
        Some(v) => v.as_str().unicode_len() > 0,
        None => false,
    }
}

fn given(v: Option<&str>) -> (r: bool)
    ensures
        r == non_empty(v),
{
    match v {
        Some(s) => s.unicode_len() > 0,
        None => false,
    }
}

/// Whether the service picker may show (the services file must still list
/// at least one service).
pub fn picker_allowed(dsn: Option<&str>, service: Option<&str>, env: &HashMap<String, String>) -> (r: bool)
    ensures
        r == no_connection_hints(dsn, service, env.deep_view()),
{
    !given(dsn) && !given(service) && !env_has_value(env, "PGHOST") && !env_has_value(env, "PGSERVICE")
        && !env_has_value(env, "PG_LENS_SERVICE") && !env_has_value(env, "PG_LENS_DSN")
}

/// The remote config URL: the flag (or its environment variable), else
/// the config file's `remote_config`; empty values count as unset.
pub open spec fn chosen_url(flag: Option<String>, config: Option<String>) -> Option<Seq<char>> {
    match flag {
        Some(f) => if f@.len() > 0 {
            Some(f@)
        } else {
            match config {
                Some(c) => if c@.len() > 0 {
                    Some(c@)
                } else {
                    None
                },
                None => None,
            }
        },
        None => match config {
            Some(c) => if c@.len() > 0 {
                Some(c@)
            } else {
                None
            },
            None => None,
        },
    }
}

pub fn config_url(flag: Option<String>, config: Option<String>) -> (r: Option<String>)
    ensures
        match chosen_url(flag, config) {
            Some(u) => r matches Some(x) && x@ == u,
            None => r is None,
        },
{
    match flag {
        Some(f) => {
            if f.as_str().unicode_len() > 0 {
                return Some(f);
            }
        },
        None => {},
    }
    match config {
        Some(c) => {
            if c.as_str().unicode_len() > 0 {
                Some(c)
            } else {
                None
            }
        },
        None => None,
    }
}

/// Where the bearer token for the remote config comes from.
pub enum TokenSource {
    /// A token found in the environment.
    Env(String),
    /// The configured `remote_config_token_cmd`, to be run by the caller;
    /// its trimmed output is the token.
    Command(String),
    /// No token: the remote source is fetched unauthenticated.
    Unauthenticated,
}

/// The token's precedence: `PG_LENS_CONFIG_TOKEN`, then `GITHUB_TOKEN`,
/// then the token command; empty values count as unset.
pub open spec fn token_source_is(env: Map<Seq<char>, Seq<char>>, cmd: Option<&str>, r: TokenSource) -> bool {
    if env_set(env, "PG_LENS_CONFIG_TOKEN"@) {
        r matches TokenSource::Env(t) && t@ == env["PG_LENS_CONFIG_TOKEN"@]
    } else if env_set(env, "GITHUB_TOKEN"@) {
        r matches TokenSource::Env(t) && t@ == env["GITHUB_TOKEN"@]
    } else if non_empty(cmd) {
        r matches TokenSource::Command(c) && c@ == cmd.unwrap()@
    } else {
        r is Unauthenticated
    }
}

/// Chooses the remote config's token source; never reads a token from a
/// file.
pub fn config_token_source(env: &HashMap<String, String>, token_cmd: Option<&str>) -> (r: TokenSource)
    ensures
        token_source_is(env.deep_view(), token_cmd, r),
{
    if env_has_value(env, "PG_LENS_CONFIG_TOKEN") {
        match env_lookup(env, "PG_LENS_CONFIG_TOKEN") {
            Some(v) => return TokenSource::Env(copy_str(v.as_str())),
            None => {},
        }
    }
    if env_has_value(env, "GITHUB_TOKEN") {
        match env_lookup(env, "GITHUB_TOKEN") {
            Some(v) => return TokenSource::Env(copy_str(v.as_str())),
            None => {},
        }
    }
    match token_cmd {
        Some(c) => {
            if c.unicode_len() > 0 {
                return TokenSource::Command(copy_str(c));
            }
        },
        None => {},
    }
    TokenSource::Unauthenticated
}

/// Characters kept in a history key; every other one becomes `_`.
pub open spec fn key_char(c: char) -> char {
    if ('a' <= c && c <= 'z') || ('A' <= c && c <= 'Z') || ('0' <= c && c <= '9') || c == '-' || c == '_' {
        c
    } else {
        '_'
    }
}

/// The database part of a history key: the override, else the config's
/// database, else its user, else `postgres`.
pub open spec fn key_database(db_override: Option<&str>, dbname: Option<&str>, user: Option<&str>) -> Seq<char> {
    match db_override {
        Some(d) => d@,
        None => match dbname {
            Some(d) => d@,
            None => match user {
                Some(u) => u@,
                None => "postgres"@,
            },
        },
    }
}

/// `host_port_db`, first host or `localhost`, first port or 5432, every
/// character outside `[A-Za-z0-9_-]` replaced by `_`: a filesystem-safe key
/// per connection target.
pub open spec fn history_key_text(
    host: Option<&str>,
    port: Option<u16>,
    dbname: Option<&str>,
    user: Option<&str>,
    db_override: Option<&str>,
) -> Seq<char> {
    let h = match host {
        Some(s) => s@,
        None => "localhost"@,
    };
    let p = match port {
        Some(x) => x as nat,
        None => 5432,
    };
    let raw = h + "_"@ + crate::text::decimal(p) + "_"@ + key_database(db_override, dbname, user);
    raw.map_values(|c: char| key_char(c))
}

fn sanitize(raw: &str) -> (r: String)
    ensures
        r@ == raw@.map_values(|c: char| key_char(c)),
{
    let n = raw.unicode_len();
    let mut out = String::new();
    let mut i: usize = 0;
    while i < n
        invariant
            n == raw@.len(),
            0 <= i <= n,
            out@ == raw@.subrange(0, i as int).map_values(|c: char| key_char(c)),
        decreases n - i,
    {
        let c = raw.get_char(i);
        let k = if ('a' <= c && c <= 'z') || ('A' <= c && c <= 'Z') || ('0' <= c && c <= '9') || c == '-' || c == '_' {
            c
        } else {
            '_'
        };
        push_char(&mut out, k);
        assert(out@ =~= raw@.subrange(0, i as int + 1).map_values(|c: char| key_char(c)));
        i = i + 1;
    }
    assert(raw@.subrange(0, n as int) =~= raw@);
    out
}

/// The history file key of one connection target.
pub fn history_key(
    host: Option<&str>,
    port: Option<u16>,
    dbname: Option<&str>,
    user: Option<&str>,
    db_override: Option<&str>,
) -> (r: String)
    ensures
        r@ == history_key_text(host, port, dbname, user, db_override),
{
    let mut raw = String::new();
    match host {
        Some(h) => push_str(&mut raw, h),
        None => push_str(&mut raw, "localhost"),
    }
    push_char(&mut raw, '_');
    let p: u16 = match port {
        Some(x) => x,
        None => 5432,
    };
    push_decimal(&mut raw, p as u128);
    push_char(&mut raw, '_');
    match db_override {
        Some(d) => push_str(&mut raw, d),
        None => match dbname {
            Some(d) => push_str(&mut raw, d),
            None => match user {
                Some(u) => push_str(&mut raw, u),
                None => push_str(&mut raw, "postgres"),
            },
        },
    }
    proof {
        reveal_strlit("_");
    }
    assert(raw@ =~= (match host {
        Some(s) => s@,
        None => "localhost"@,
    }) + "_"@ + crate::text::decimal(p as nat) + "_"@ + key_database(db_override, dbname, user));
    sanitize(raw.as_str())
}

} // verus!
