//! The local search server: its address, its command line and the wait for
//! it to come up.
use vstd::prelude::*;
use crate::decimal::{decimal, push_decimal};
use crate::text::{trim_end_spec, trim_end_matches, push_str, to_owned_string, contains_string, views_of};
use crate::web::{url_parses, url_host, url_path, url_port, url_parts};

verus! {

/// Why an endpoint gives no server address.
#[derive(PartialEq, Eq, Structural, Clone, Copy, Debug)]
pub enum AddressError {
    /// Not a URL.
    Parse,
    /// It has no host.
    NoHost,
    /// It names no port.
    NoPort,
}

/// `host/path:port` of a URL, without the path's trailing slashes.
pub open spec fn address_spec(host: Seq<char>, path: Seq<char>, port: u16) -> Seq<char> {
    host + trim_end_spec(path, "/"@) + ":"@ + decimal(port as nat)
}

/// The address of the endpoint `url`, or why it has none.
pub open spec fn remove_scheme_from_url_spec(url: Seq<char>) -> Result<Seq<char>, AddressError> {
    if !url_parses(url) {
        Err(AddressError::Parse)
    } else if url_host(url) is None {
        Err(AddressError::NoHost)
    } else if url_port(url) is None {
        Err(AddressError::NoPort)
    } else {
        Ok(address_spec(url_host(url)->0, url_path(url), url_port(url)->0))
    }
}

/// The address the server listens on, from its endpoint URL.
pub fn remove_scheme_from_url(url: &str) -> (r: Result<String, AddressError>)
    ensures
        !url_parses(url@) <==> r == Err::<String, AddressError>(AddressError::Parse),
        url_parses(url@) && url_host(url@) is None <==> r == Err::<String, AddressError>(AddressError::NoHost),
        url_parses(url@) && url_host(url@) is Some && url_port(url@) is None <==> r == Err::<
            String,
            AddressError,
        >(AddressError::NoPort),
        r matches Ok(s) ==> url_host(url@) matches Some(h) && url_port(url@) matches Some(p) && s@
            == address_spec(h, url_path(url@), p),
{
    proof {
        reveal_strlit("/");
    }
    let parts = url_parts(url);
    match parts {
        None => Err(AddressError::Parse),
        Some((host, path, port)) => match host {
            None => Err(AddressError::NoHost),
            Some(h) => match port {
                None => Err(AddressError::NoPort),
                Some(p) => {
                    let mut r = to_owned_string(h.as_str());
                    let trimmed = trim_end_matches(path.as_str(), "/");
                    push_str(&mut r, trimmed.as_str());
                    push_str(&mut r, ":");
                    push_decimal(&mut r, p as u64);
                    Ok(r)
                },
            },
        },
    }
}

/// `dir` joined with the relative name `name` (`Path::join` on Unix).
pub open spec fn joined(dir: Seq<char>, name: Seq<char>) -> Seq<char> {
    if dir.len() == 0 {
        name
    } else if dir.last() == '/' {
        dir + name
    } else {
        dir + "/"@ + name
    }
}

/// `Path::join` of a directory and a relative name, as text.
pub fn join_path(dir: &str, name: &str) -> (r: String)
    ensures
        r@ == joined(dir@, name@),
{
    let cs = crate::text::chars_of(dir);
    if cs.len() == 0 {
        return to_owned_string(name);
    }
    let mut r = to_owned_string(dir);
    let last = cs[cs.len() - 1];
    if last != '/' {
        push_str(&mut r, "/");
    }
    push_str(&mut r, name);
    r
}

/// The server's command line: the configured one, with a database beside
/// the executable unless it names one, then the log level, the address and
/// the master key.
pub open spec fn server_command_spec(
    cmd: Seq<Seq<char>>,
    exe_dir: Seq<char>,
    address: Seq<char>,
    master_key: Seq<char>,
) -> Seq<Seq<char>> {
    let base = if cmd.contains("--db-path"@) {
        cmd
    } else {
        cmd + seq!["--db-path"@, joined(exe_dir, "data.ms"@)]
    };
    base + seq!["--log-level"@, "WARN"@, "--http-addr"@, address, "--master-key"@, master_key]
}

/// The server's command line starts with the configured one, always names a
/// database (beside the executable when the configuration names none), and
/// ends by setting the log level, the address and the master key.
pub proof fn lemma_server_command(
    cmd: Seq<Seq<char>>,
    exe_dir: Seq<char>,
    address: Seq<char>,
    master_key: Seq<char>,
)
    ensures
        ({
            let r = server_command_spec(cmd, exe_dir, address, master_key);
            &&& r.subrange(0, cmd.len() as int) == cmd
            &&& r.contains("--db-path"@)
            &&& !cmd.contains("--db-path"@) ==> r[cmd.len() as int] == "--db-path"@ && r[cmd.len() + 1int]
                == joined(exe_dir, "data.ms"@) && r.len() == cmd.len() + 8
            &&& cmd.contains("--db-path"@) ==> r.len() == cmd.len() + 6
            &&& r.subrange(r.len() - 6, r.len() as int) == seq![
                "--log-level"@,
                "WARN"@,
                "--http-addr"@,
                address,
                "--master-key"@,
                master_key,
            ]
        }),
{
    let r = server_command_spec(cmd, exe_dir, address, master_key);
    assert(r.subrange(0, cmd.len() as int) =~= cmd);
    assert(r.subrange(r.len() - 6, r.len() as int) =~= seq![
        "--log-level"@,
        "WARN"@,
        "--http-addr"@,
        address,
        "--master-key"@,
        master_key,
    ]);
    if cmd.contains("--db-path"@) {
        let i = choose|i: int| 0 <= i < cmd.len() && cmd[i] == "--db-path"@;
        assert(r[i] == cmd[i]);
    } else {
        assert(r[cmd.len() as int] == "--db-path"@);
    }
}

pub fn server_command(cmd: &Vec<String>, exe_dir: &str, address: &str, master_key: &str) -> (r: Vec<
    String,
>)
    ensures
        views_of(r@) == server_command_spec(views_of(cmd@), exe_dir@, address@, master_key@),
        r@.len() > 0,
{
    proof {
        reveal_strlit("--db-path");
    }
    let mut r = crate::text::clone_strings(cmd);
    let named = contains_string(cmd, "--db-path");
    if !named {
        r.push(to_owned_string("--db-path"));
        let db = join_path(exe_dir, "data.ms");
        assert(db@ == joined(exe_dir@, "data.ms"@));
        r.push(db);
    }
    let ghost base = views_of(r@);
    r.push(to_owned_string("--log-level"));
    r.push(to_owned_string("WARN"));
    r.push(to_owned_string("--http-addr"));
    r.push(to_owned_string(address));
    r.push(to_owned_string("--master-key"));
    r.push(to_owned_string(master_key));
    assert(views_of(r@) =~= base + seq!["--log-level"@, "WARN"@, "--http-addr"@, address@, "--master-key"@, master_key@]);
    r
}

/// What the wait for the server does next.
#[derive(PartialEq, Eq, Structural, Clone, Copy, Debug)]
pub enum WaitStep {
    /// The server answers: go on.
    Ready,
    /// Too long: give up.
    Timeout,
    /// Ask again after `RETRY_MILLIS`.
    Retry,
}

/// How long the server is waited for, and how often it is asked.
pub const WAIT_LIMIT_MILLIS: u64 = 1000000;

pub const RETRY_MILLIS: u64 = 300;

/// The wait goes on while the server is not healthy, until more than
/// `WAIT_LIMIT_MILLIS` have passed.
pub fn wait_step(healthy: bool, elapsed_millis: u64) -> (r: WaitStep)
    ensures
        healthy ==> r == WaitStep::Ready,
        !healthy && elapsed_millis > WAIT_LIMIT_MILLIS ==> r == WaitStep::Timeout,
        !healthy && elapsed_millis <= WAIT_LIMIT_MILLIS ==> r == WaitStep::Retry,
{
    if healthy {
        WaitStep::Ready
    } else if elapsed_millis > WAIT_LIMIT_MILLIS {
        WaitStep::Timeout
    } else {
        WaitStep::Retry
    }
}

/// What starting the search server takes: the address it must listen on, and
/// the command line that starts it, `None` when a server already runs.
pub fn meilisearch(
    meili: &crate::config::MeilisearchConfig,
    exe_dir: &str,
    already_running: bool,
) -> (r: Result<(String, Option<Vec<String>>), AddressError>)
    ensures
        match remove_scheme_from_url_spec(meili.api_endpoint@) {
            Err(e) => r == Err::<(String, Option<Vec<String>>), AddressError>(e),
            Ok(a) => r matches Ok(p) && p.0@ == a && (already_running <==> p.1 is None) && (p.1 matches Some(
                cmd,
            ) ==> views_of(cmd@) == server_command_spec(
                views_of(meili.server_cmd@),
                exe_dir@,
                a,
                meili.master_key@,
            )),
        },
{
    let address = remove_scheme_from_url(meili.api_endpoint.as_str())?;
    if already_running {
        Ok((address, None))
    } else {
        let cmd = server_command(&meili.server_cmd, exe_dir, address.as_str(), meili.master_key.as_str());
        Ok((address, Some(cmd)))
    }
}

} // verus!
