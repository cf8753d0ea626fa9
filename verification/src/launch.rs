//! Starting the Codex app server behind the host's proxy: the addresses it may
//! listen on, the command line and environment it is started with, and how many
//! starts are tried before the host gives up.
use vstd::prelude::*;
use crate::commands::arg_views;
use crate::text::{append_chars, append_str, decimal, decimal_chars, string_from_chars, to_chars};

verus! {

/// How many times the host starts the app server before it gives up.
pub const APP_SERVER_LAUNCH_ATTEMPTS: usize = 3;

/// The refusal of an address that is not a loopback address.
pub open spec fn loopback_refusal(role: Seq<char>, address: Seq<char>) -> Seq<char> {
    "refusing to expose the Codex app-server "@ + role + " on non-loopback address "@ + address
}

/// Accepts a loopback address and refuses any other: the proxy (`role` `proxy`) and
/// the backend (`role` `backend`) only ever listen on the loopback interface.
pub fn require_loopback(role: &str, address: &str, is_loopback: bool) -> (r: Result<(), String>)
    ensures
        match r {
            Ok(()) => is_loopback,
            Err(e) => !is_loopback && e@ == loopback_refusal(role@, address@),
        },
{
    if is_loopback {
        return Ok(());
    }
    let mut v = to_chars("refusing to expose the Codex app-server ");
    append_str(&mut v, role);
    append_str(&mut v, " on non-loopback address ");
    append_str(&mut v, address);
    Err(string_from_chars(v.as_slice()))
}

/// The WebSocket URL of a listening address: `ws://<address>`.
pub fn websocket_url(address: &str) -> (r: String)
    ensures
        r@ == "ws://"@ + address@,
{
    let mut v = to_chars("ws://");
    append_str(&mut v, address);
    string_from_chars(v.as_slice())
}

/// The origin the proxy lets through: `chrome-extension://<id>`.
pub fn extension_origin(extension_id: &str) -> (r: String)
    ensures
        r@ == "chrome-extension://"@ + extension_id@,
{
    let mut v = to_chars("chrome-extension://");
    append_str(&mut v, extension_id);
    string_from_chars(v.as_slice())
}

/// The arguments the Codex CLI is started with, to serve on `url`.
pub open spec fn app_server_args(url: Seq<char>) -> Seq<Seq<char>> {
    seq!["app-server"@, "--listen"@, url, "--analytics-default-enabled"@]
}

/// The arguments that start the app server listening on `backend_url`.
pub fn launch_args(backend_url: &str) -> (r: Vec<String>)
    ensures
        arg_views(r@) == app_server_args(backend_url@),
{
    let mut r: Vec<String> = Vec::new();
    r.push(String::from_str("app-server"));
    r.push(String::from_str("--listen"));
    r.push(String::from_str(backend_url));
    r.push(String::from_str("--analytics-default-enabled"));
    assert(arg_views(r@) =~= app_server_args(backend_url@));
    r
}

/// A value of the app server's environment: a path, handed on as it is, or text.
pub enum EnvValue<P> {
    Path(P),
    Text(String),
}

/// An environment value seen as a path or as text.
pub enum EnvView<P> {
    Path(P),
    Text(Seq<char>),
}

pub open spec fn env_view<P>(e: (String, EnvValue<P>)) -> (Seq<char>, EnvView<P>) {
    (
        e.0@,
        match e.1 {
            EnvValue::Path(p) => EnvView::Path(p),
            EnvValue::Text(t) => EnvView::Text(t@),
        },
    )
}

pub open spec fn env_views<P>(v: Seq<(String, EnvValue<P>)>) -> Seq<(Seq<char>, EnvView<P>)> {
    v.map_values(|e: (String, EnvValue<P>)| env_view(e))
}

/// The paths the app server is started with, from the host's configuration;
/// `node_module_dirs` is the joined search path, when the configuration names any.
pub struct LaunchPaths<P> {
    pub codex_cli_path: P,
    pub node_path: P,
    pub node_repl_path: P,
    pub browser_client_path: Option<P>,
    pub codex_home: Option<P>,
    pub resources_path: Option<P>,
    pub node_module_dirs: Option<P>,
}

/// One variable when the value is there, none otherwise.
pub open spec fn path_entry<P>(name: Seq<char>, value: Option<P>) -> Seq<(Seq<char>, EnvView<P>)> {
    match value {
        Some(p) => seq![(name, EnvView::Path(p))],
        None => Seq::empty(),
    }
}

/// One variable when the value is there, none otherwise.
pub open spec fn text_entry<P>(name: Seq<char>, value: Option<Seq<char>>) -> Seq<(Seq<char>, EnvView<P>)> {
    match value {
        Some(t) => seq![(name, EnvView::Text(t))],
        None => Seq::empty(),
    }
}

/// The environment the app server is started with, in order: the Codex CLI, Node
/// and Node REPL paths, the proxy's address, then each optional setting that is
/// given.
pub open spec fn app_server_env<P>(
    paths: LaunchPaths<P>,
    proxy_ip: Seq<char>,
    proxy_port: u16,
    extension_id: Option<Seq<char>>,
    channel: Option<Seq<char>>,
) -> Seq<(Seq<char>, EnvView<P>)> {
    seq![
        ("CODEX_CLI_PATH"@, EnvView::Path(paths.codex_cli_path)),
        ("CODEX_BROWSER_USE_NODE_PATH"@, EnvView::Path(paths.node_path)),
        ("NODE_REPL_NODE_PATH"@, EnvView::Path(paths.node_path)),
        ("CODEX_NODE_REPL_PATH"@, EnvView::Path(paths.node_repl_path)),
        ("CODEX_APP_SERVER_PROXY_HOST"@, EnvView::Text(proxy_ip)),
        ("CODEX_APP_SERVER_PROXY_PORT"@, EnvView::Text(decimal(proxy_port as nat))),
    ] + path_entry("CODEX_BROWSER_CLIENT_PATH"@, paths.browser_client_path) + path_entry(
        "CODEX_HOME"@,
        paths.codex_home,
    ) + path_entry("CODEX_ELECTRON_RESOURCES_PATH"@, paths.resources_path) + text_entry(
        "CODEX_EXTENSION_ID"@,
        extension_id,
    ) + text_entry("CODEX_EXTENSION_CHANNEL"@, channel) + path_entry(
        "NODE_REPL_NODE_MODULE_DIRS"@,
        paths.node_module_dirs,
    )
}

pub open spec fn opt_str(o: Option<&str>) -> Option<Seq<char>> {
    match o {
        Some(s) => Some(s@),
        None => None,
    }
}

fn push_path<P>(env: &mut Vec<(String, EnvValue<P>)>, name: &str, value: Option<P>)
    ensures
        env_views(final(env)@) == env_views(old(env)@) + path_entry(name@, value),
{
    let ghost before = env@;
    match value {
        Some(p) => {
            env.push((String::from_str(name), EnvValue::Path(p)));
            assert(env_views(env@) =~= env_views(before) + path_entry(name@, value));
        },
        None => {
            assert(env_views(env@) =~= env_views(before) + path_entry(name@, value));
        },
    }
}

fn push_text<P>(env: &mut Vec<(String, EnvValue<P>)>, name: &str, value: Option<&str>)
    ensures
        env_views(final(env)@) == env_views(old(env)@) + text_entry::<P>(name@, opt_str(value)),
{
    let ghost before = env@;
    match value {
        Some(t) => {
            env.push((String::from_str(name), EnvValue::Text(String::from_str(t))));
            assert(env_views(env@) =~= env_views(before) + text_entry::<P>(name@, opt_str(value)));
        },
        None => {
            assert(env_views(env@) =~= env_views(before) + text_entry::<P>(name@, opt_str(value)));
        },
    }
}

/// The environment that starts the app server with `paths`, behind the proxy at
/// `proxy_ip`:`proxy_port`.
pub fn launch_env<P: Copy>(
    paths: &LaunchPaths<P>,
    proxy_ip: &str,
    proxy_port: u16,
    extension_id: Option<&str>,
    channel: Option<&str>,
) -> (r: Vec<(String, EnvValue<P>)>)
    ensures
        env_views(r@) == app_server_env(*paths, proxy_ip@, proxy_port, opt_str(extension_id), opt_str(channel)),
{
    let mut env: Vec<(String, EnvValue<P>)> = Vec::new();
    env.push((String::from_str("CODEX_CLI_PATH"), EnvValue::Path(paths.codex_cli_path)));
    env.push((String::from_str("CODEX_BROWSER_USE_NODE_PATH"), EnvValue::Path(paths.node_path)));
    env.push((String::from_str("NODE_REPL_NODE_PATH"), EnvValue::Path(paths.node_path)));
    env.push((String::from_str("CODEX_NODE_REPL_PATH"), EnvValue::Path(paths.node_repl_path)));
    env.push((String::from_str("CODEX_APP_SERVER_PROXY_HOST"), EnvValue::Text(String::from_str(proxy_ip))));
    let port = decimal_chars(proxy_port as u64);
    env.push((String::from_str("CODEX_APP_SERVER_PROXY_PORT"), EnvValue::Text(string_from_chars(port.as_slice()))));
    let ghost fixed = env_views(env@);
    assert(fixed =~= seq![
        ("CODEX_CLI_PATH"@, EnvView::Path(paths.codex_cli_path)),
        ("CODEX_BROWSER_USE_NODE_PATH"@, EnvView::Path(paths.node_path)),
        ("NODE_REPL_NODE_PATH"@, EnvView::Path(paths.node_path)),
        ("CODEX_NODE_REPL_PATH"@, EnvView::Path(paths.node_repl_path)),
        ("CODEX_APP_SERVER_PROXY_HOST"@, EnvView::Text(proxy_ip@)),
        ("CODEX_APP_SERVER_PROXY_PORT"@, EnvView::<P>::Text(decimal(proxy_port as nat))),
    ]);
    push_path(&mut env, "CODEX_BROWSER_CLIENT_PATH", paths.browser_client_path);
    push_path(&mut env, "CODEX_HOME", paths.codex_home);
    push_path(&mut env, "CODEX_ELECTRON_RESOURCES_PATH", paths.resources_path);
    push_text(&mut env, "CODEX_EXTENSION_ID", extension_id);
    push_text(&mut env, "CODEX_EXTENSION_CHANNEL", channel);
    push_path(&mut env, "NODE_REPL_NODE_MODULE_DIRS", paths.node_module_dirs);
    env
}

/// The failures joined by `sep`, in order.
pub open spec fn joined(items: Seq<Seq<char>>, sep: Seq<char>) -> Seq<char>
    decreases items.len(),
{
    if items.len() == 0 {
        Seq::empty()
    } else if items.len() == 1 {
        items[0]
    } else {
        joined(items.drop_last(), sep) + sep + items.last()
    }
}

/// The starts of the app server that failed so far, and why.
pub struct LaunchAttempts {
    errors: Vec<String>,
}

impl View for LaunchAttempts {
    type V = Seq<Seq<char>>;

    closed spec fn view(&self) -> Seq<Seq<char>> {
        self.errors@.map_values(|e: String| e@)
    }
}

/// What follows a failed start: another start, or giving up with the failures.
pub enum LaunchStep {
    Retry,
    GiveUp(String),
}

impl LaunchAttempts {
    /// No start has failed yet.
    pub fn new() -> (r: LaunchAttempts)
        ensures
            r@ == Seq::<Seq<char>>::empty(),
    {
        let r = LaunchAttempts { errors: Vec::new() };
        assert(r@ =~= Seq::<Seq<char>>::empty());
        r
    }

    /// Records that a start failed with `error`; the host tries again while fewer
    /// than three starts have failed, and otherwise gives up with every failure,
    /// joined by `; `.
    pub fn launch_failed(&mut self, error: String) -> (r: LaunchStep)
        ensures
            final(self)@ == old(self)@.push(error@),
            match r {
                LaunchStep::Retry => final(self)@.len() < APP_SERVER_LAUNCH_ATTEMPTS,
                LaunchStep::GiveUp(m) => final(self)@.len() >= APP_SERVER_LAUNCH_ATTEMPTS && m@
                    == joined(final(self)@, "; "@),
            },
    {
        let ghost before = self@;
        self.errors.push(error);
        assert(self@ =~= before.push(self.errors@.last()@));
        if self.errors.len() < APP_SERVER_LAUNCH_ATTEMPTS {
            return LaunchStep::Retry;
        }
        let mut out: Vec<char> = Vec::new();
        let mut i: usize = 0;
        while i < self.errors.len()
            invariant
                i <= self.errors.len(),
                self@ == self.errors@.map_values(|e: String| e@),
                out@ == joined(self@.take(i as int), "; "@),
            decreases self.errors.len() - i,
        {
            assert(self@.take(i + 1).drop_last() =~= self@.take(i as int));
            if i > 0 {
                append_str(&mut out, "; ");
            }
            let e = to_chars(self.errors[i].as_str());
            append_chars(&mut out, e.as_slice());
            proof {
                if i == 0 {
                    assert(out@ =~= self@.take(1)[0]);
                }
            }
            i = i + 1;
        }
        assert(self@.take(self.errors.len() as int) =~= self@);
        LaunchStep::GiveUp(string_from_chars(out.as_slice()))
    }
}

} // verus!
