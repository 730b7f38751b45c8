//! Read-only mode resolution: the `--read-only` flag, the
//! `PG_LENS_READ_ONLY` environment variable and the config file's
//! `read_only` setting.
use std::collections::HashMap;
use vstd::prelude::*;
use crate::text::{ascii_lowercase, str_eq, to_ascii_lowercase, trim, trimmed};

verus! {

/// The falsy spellings of a presence-style boolean (compared after trimming
/// and ASCII-lowercasing); anything else is truthy.
pub open spec fn is_falsy_word(w: Seq<char>) -> bool {
    w == ""@ || w == "0"@ || w == "false"@ || w == "no"@ || w == "off"@
}

/// Loose boolean reading of an environment value.
pub open spec fn truthy(value: Seq<char>) -> bool {
    !is_falsy_word(ascii_lowercase(trimmed(value)))
}

/// `PG_LENS_READ_ONLY`'s loose boolean parse: false only for empty, `0`,
/// `false`, `no` or `off` (surrounding whitespace and ASCII case ignored).
pub fn is_truthy(value: &str) -> (r: bool)
    ensures
        r == truthy(value@),
{
    let lowered = to_ascii_lowercase(trim(value));
    let w = lowered.as_str();
    !(str_eq(w, "") || str_eq(w, "0") || str_eq(w, "false") || str_eq(w, "no") || str_eq(w, "off"))
}

/// Looks up an environment variable in the captured environment.
///
/// Trusted wrapper around `HashMap::<String, String>::get`: it claims that
/// the lookup finds a value exactly when some key spells `key`, and that
/// the value found is the one stored under that spelling (`String`'s
/// equality and hashing both follow the character sequence).
#[verifier::external_body]
pub(crate) fn env_lookup<'a>(env: &'a HashMap<String, String>, key: &str) -> (r: Option<&'a String>)
    ensures
        r is Some <==> env.deep_view().contains_key(key@),
        r matches Some(v) ==> v@ == env.deep_view()[key@],
{
    env.get(key)
}

/// The environment arms read-only mode: `PG_LENS_READ_ONLY` is set to a
/// truthy value.
pub open spec fn env_arms_read_only(env: Map<Seq<char>, Seq<char>>) -> bool {
    env.contains_key("PG_LENS_READ_ONLY"@) && truthy(env["PG_LENS_READ_ONLY"@])
}

/// Precedence of read-only mode: the flag and the environment variable are
/// OR'd (either alone arms it and neither can disarm the other), then the
/// config file's value, then `false`.
pub fn resolve_read_only(flag: bool, env: &HashMap<String, String>, config_value: Option<bool>) -> (r: bool)
    ensures
        r == (flag || env_arms_read_only(env.deep_view()) || config_value == Some(true)),
{
    if flag {
        return true;
    }
    match env_lookup(env, "PG_LENS_READ_ONLY") {
        Some(v) => {
            if is_truthy(v.as_str()) {
                return true;
            }
        },
        None => {},
    }
    match config_value {
        Some(b) => b,
        None => false,
    }
}

} // verus!
