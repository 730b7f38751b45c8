//! Building the argv/env for an interactive `psql` shell on the current
//! connection. The password never reaches the arguments: it travels only
//! in the `PGPASSWORD` environment entry.
use vstd::prelude::*;
use vstd::string::*;
use crate::text::{
    debug_list, debug_quoted, decimal, decimal_string, push_debug_list, push_decimal, push_str,
    quote_debug, views,
};

verus! {

/// Read-only mode's `PGOPTIONS`: a read-only default transaction.
pub const READ_ONLY_PGOPTIONS: &'static str = "-c default_transaction_read_only=on";

/// Connection parameters resolved late, held only long enough to build one
/// [`PsqlInvocation`].
#[derive(Clone, PartialEq, Eq)]
pub struct PsqlConnInfo {
    pub host: Option<String>,
    pub port: Option<u16>,
    pub user: Option<String>,
    pub dbname: Option<String>,
    pub password: Option<String>,
}

impl Default for PsqlConnInfo {
    fn default() -> (r: Self)
        ensures
            r.host is None,
            r.port is None,
            r.user is None,
            r.dbname is None,
            r.password is None,
    {
        PsqlConnInfo { host: None, port: None, user: None, dbname: None, password: None }
    }
}

/// What to hand the process launcher: flags (never the password) plus the
/// environment pairs.
#[derive(Clone, PartialEq, Eq)]
pub struct PsqlInvocation {
    pub args: Vec<String>,
    pub env: Vec<(String, String)>,
}

/// The characters of an optional string value.
pub open spec fn opt_chars(v: Option<String>) -> Option<Seq<char>> {
    match v {
        Some(s) => Some(s@),
        None => None,
    }
}

/// `[flag, value]` when the value is present and non-empty, else nothing.
pub open spec fn flag_pair(flag: Seq<char>, value: Option<Seq<char>>) -> Seq<Seq<char>> {
    match value {
        Some(v) => if v.len() > 0 { seq![flag, v] } else { Seq::empty() },
        None => Seq::empty(),
    }
}

/// The argument list: `--host`, `--port`, `--username`, `--dbname`, each
/// only when known (an empty string counts as unknown, a port is always
/// rendered in decimal).
pub open spec fn psql_args(conn: PsqlConnInfo) -> Seq<Seq<char>> {
    flag_pair("--host"@, opt_chars(conn.host)) + match conn.port {
        Some(p) => seq!["--port"@, decimal(p as nat)],
        None => Seq::empty(),
    } + flag_pair("--username"@, opt_chars(conn.user)) + flag_pair(
        "--dbname"@,
        opt_chars(conn.dbname),
    )
}

/// The environment: `PGPASSWORD` for a present, non-empty password, then
/// `PGOPTIONS` in read-only mode.
pub open spec fn psql_env(conn: PsqlConnInfo, read_only: bool) -> Seq<(Seq<char>, Seq<char>)> {
    (match opt_chars(conn.password) {
        Some(pw) => if pw.len() > 0 { seq![("PGPASSWORD"@, pw)] } else { Seq::empty() },
        None => Seq::empty(),
    }) + if read_only {
        seq![("PGOPTIONS"@, READ_ONLY_PGOPTIONS@)]
    } else {
        Seq::empty()
    }
}

pub open spec fn strings_view(v: Seq<String>) -> Seq<Seq<char>> {
    v.map_values(|s: String| s@)
}

pub open spec fn pairs_view(v: Seq<(String, String)>) -> Seq<(Seq<char>, Seq<char>)> {
    v.map_values(|p: (String, String)| (p.0@, p.1@))
}

fn push_flag(args: &mut Vec<String>, flag: &str, value: &Option<String>)
    ensures
        strings_view(final(args)@) == strings_view(old(args)@) + flag_pair(flag@, opt_chars(*value)),
{
    match value {
        Some(v) => {
            if v.as_str().unicode_len() > 0 {
                args.push(String::from_str(flag));
                args.push(v.clone());
            }
        },
        None => {},
    }
    assert(strings_view(args@) =~= strings_view(old(args)@) + flag_pair(flag@, opt_chars(*value)));
}

/// `{:?}` of an optional string: `Some("v")` or `None`.
pub open spec fn opt_debug(v: Option<Seq<char>>) -> Seq<char> {
    match v {
        Some(s) => "Some("@ + debug_quoted(s) + ")"@,
        None => "None"@,
    }
}

/// `{:?}` of an optional port.
pub open spec fn port_debug(p: Option<u16>) -> Seq<char> {
    match p {
        Some(p) => "Some("@ + decimal(p as nat) + ")"@,
        None => "None"@,
    }
}

/// The debug rendering of connection parameters: every field but the
/// password, which shows only as whether one is present.
pub open spec fn conn_debug_text(conn: PsqlConnInfo) -> Seq<char> {
    "PsqlConnInfo { host: "@ + opt_debug(opt_chars(conn.host)) + ", port: "@ + port_debug(conn.port)
        + ", user: "@ + opt_debug(opt_chars(conn.user)) + ", dbname: "@ + opt_debug(
        opt_chars(conn.dbname),
    ) + ", has_password: "@ + (if conn.password is Some {
        "true"@
    } else {
        "false"@
    }) + " }"@
}

/// The names of the environment entries, in order.
pub open spec fn env_keys(env: Seq<(String, String)>) -> Seq<Seq<char>> {
    env.map_values(|p: (String, String)| p.0@)
}

/// The debug rendering of an invocation: the arguments, and the names of
/// the environment entries without their values.
pub open spec fn invocation_debug_text(inv: PsqlInvocation) -> Seq<char> {
    "PsqlInvocation { args: "@ + debug_list(views(inv.args@)) + ", env_keys: "@ + debug_list(
        env_keys(inv.env@),
    ) + " }"@
}

fn push_opt_debug(out: &mut String, v: &Option<String>)
    ensures
        final(out)@ == old(out)@ + opt_debug(opt_chars(*v)),
{
    match v {
        Some(s) => {
            push_str(out, "Some(");
            let q = quote_debug(s.as_str());
            push_str(out, q.as_str());
            push_str(out, ")");
        },
        None => push_str(out, "None"),
    }
}

impl PsqlConnInfo {
    /// The text `{:?}` shows for these parameters: the password itself is
    /// never rendered, only whether there is one.
    pub fn debug_text(&self) -> (r: String)
        ensures
            r@ == conn_debug_text(*self),
    {
        let mut out = String::new();
        push_str(&mut out, "PsqlConnInfo { host: ");
        push_opt_debug(&mut out, &self.host);
        push_str(&mut out, ", port: ");
        match self.port {
            Some(p) => {
                push_str(&mut out, "Some(");
                push_decimal(&mut out, p as u128);
                push_str(&mut out, ")");
            },
            None => push_str(&mut out, "None"),
        }
        push_str(&mut out, ", user: ");
        push_opt_debug(&mut out, &self.user);
        push_str(&mut out, ", dbname: ");
        push_opt_debug(&mut out, &self.dbname);
        push_str(&mut out, ", has_password: ");
        if self.password.is_some() {
            push_str(&mut out, "true");
        } else {
            push_str(&mut out, "false");
        }
        push_str(&mut out, " }");
        assert(out@ =~= conn_debug_text(*self));
        out
    }
}

impl PsqlInvocation {
    /// The text `{:?}` shows for an invocation: the arguments, and only
    /// the names of the environment entries (never the secret values).
    pub fn debug_text(&self) -> (r: String)
        ensures
            r@ == invocation_debug_text(*self),
    {
        let mut keys: Vec<String> = Vec::new();
        let n = self.env.len();
        let mut i: usize = 0;
        while i < n
            invariant
                n == self.env@.len(),
                0 <= i <= n,
                keys@.len() == i,
                forall|j: int| 0 <= j < i ==> (#[trigger] keys@[j])@ == self.env@[j].0@,
            decreases n - i,
        {
            let mut k = String::new();
            push_str(&mut k, self.env[i].0.as_str());
            keys.push(k);
            i = i + 1;
        }
        assert(views(keys@) =~= env_keys(self.env@));
        let mut out = String::new();
        push_str(&mut out, "PsqlInvocation { args: ");
        push_debug_list(&mut out, &self.args);
        push_str(&mut out, ", env_keys: ");
        push_debug_list(&mut out, &keys);
        push_str(&mut out, " }");
        assert(out@ =~= invocation_debug_text(*self));
        out
    }
}

/// Builds the args and env for launching `psql` on `conn`.
pub fn build_psql_invocation(conn: &PsqlConnInfo, read_only: bool) -> (inv: PsqlInvocation)
    ensures
        strings_view(inv.args@) == psql_args(*conn),
        pairs_view(inv.env@) == psql_env(*conn, read_only),
{
    let mut args: Vec<String> = Vec::new();
    push_flag(&mut args, "--host", &conn.host);
    let ghost after_host = strings_view(args@);
    match conn.port {
        Some(port) => {
            args.push(String::from_str("--port"));
            args.push(decimal_string(port as u128));
        },
        None => {},
    }
    let ghost after_port = strings_view(args@);
    assert(after_port =~= after_host + match conn.port {
        Some(p) => seq!["--port"@, decimal(p as nat)],
        None => Seq::<Seq<char>>::empty(),
    });
    push_flag(&mut args, "--username", &conn.user);
    push_flag(&mut args, "--dbname", &conn.dbname);
    assert(strings_view(args@) =~= psql_args(*conn));

    let mut env: Vec<(String, String)> = Vec::new();
    match &conn.password {
        Some(password) => {
            if password.as_str().unicode_len() > 0 {
                env.push((String::from_str("PGPASSWORD"), password.clone()));
            }
        },
        None => {},
    }
    if read_only {
        env.push((String::from_str("PGOPTIONS"), String::from_str(READ_ONLY_PGOPTIONS)));
    }
    assert(pairs_view(env@) =~= psql_env(*conn, read_only));
    PsqlInvocation { args, env }
}

} // verus!
