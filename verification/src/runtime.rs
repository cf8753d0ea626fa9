//! The native host's own runtime methods: which method a request names, whether the
//! extension's constraints fit this host, and what becomes of a running app-server.
use vstd::prelude::*;
use crate::pending::str_eq;
use crate::text::{append_chars, append_str, decimal, decimal_chars, string_from_chars, to_chars, trim, trim_chars};

verus! {

/// The schema version of the manifest this host reports.
pub const MANIFEST_SCHEMA_VERSION: u64 = 2;

/// The native host protocol this host speaks.
pub const NATIVE_HOST_PROTOCOL_VERSION: u64 = 2;

/// The app-server protocol this host speaks.
pub const APP_SERVER_PROTOCOL_VERSION: u64 = 2;

/// The name of the runtime configuration file.
pub const RUNTIME_CONFIG_FILE: &'static str = "extension-host-config.json";

/// The schema version a runtime configuration has when it names none.
pub fn default_runtime_config_schema() -> (r: u64)
    ensures
        r == 1,
{
    1
}

/// The proxy host a runtime configuration has when it names none.
pub fn default_proxy_host() -> (r: String)
    ensures
        r@ == "127.0.0.1"@,
{
    String::from_str("127.0.0.1")
}

/// An error answered to a runtime request: its `type` and its message.
#[derive(Debug)]
pub struct RuntimeRequestError {
    pub error_type: &'static str,
    pub message: String,
}

impl RuntimeRequestError {
    pub fn new(error_type: &'static str, message: String) -> (r: Self)
        ensures
            r.error_type == error_type,
            r.message == message,
    {
        RuntimeRequestError { error_type, message }
    }
}

/// The constraints an extension puts on the host in a runtime request; each is
/// absent when the request does not give it as the expected JSON type.
pub struct RuntimeConstraints {
    pub required_native_host_protocol_version: Option<u64>,
    pub required_app_server_protocol_version: Option<u64>,
    pub extension_id: Option<String>,
    pub extension_build_channel: Option<String>,
}

/// The outcome of checking the constraints: `Ok`, or the error type and message.
pub open spec fn constraints_check(
    expected_extension_id: Option<Seq<char>>,
    channel: Option<Seq<char>>,
    constraints: Option<RuntimeConstraints>,
) -> Result<(), (Seq<char>, Seq<char>)> {
    match constraints {
        None => Ok(()),
        Some(c) => if c.required_native_host_protocol_version is Some
            && c.required_native_host_protocol_version->0 != NATIVE_HOST_PROTOCOL_VERSION {
            Err(
                (
                    "version_mismatch"@,
                    "Native host protocol "@ + decimal(c.required_native_host_protocol_version->0 as nat)
                        + " is required, but this host supports 2"@,
                ),
            )
        } else if c.required_app_server_protocol_version is Some
            && c.required_app_server_protocol_version->0 != APP_SERVER_PROTOCOL_VERSION {
            Err(
                (
                    "version_mismatch"@,
                    "App-server protocol "@ + decimal(c.required_app_server_protocol_version->0 as nat)
                        + " is required, but this host supports 2"@,
                ),
            )
        } else if expected_extension_id is Some && c.extension_id is Some
            && c.extension_id->0@ != expected_extension_id->0 {
            Err(
                (
                    "no_matching_codex_install"@,
                    "The connected extension does not match this native host manifest"@,
                ),
            )
        } else if channel is Some && c.extension_build_channel is Some
            && c.extension_build_channel->0@ != channel->0 {
            Err(
                (
                    "no_matching_codex_install"@,
                    "Extension channel "@ + c.extension_build_channel->0@
                        + " does not match native host channel "@ + channel->0,
                ),
            )
        } else {
            Ok(())
        },
    }
}

pub open spec fn opt_view(o: Option<&str>) -> Option<Seq<char>> {
    match o {
        Some(s) => Some(s@),
        None => None,
    }
}

fn version_mismatch(what: &str, required: u64) -> (r: RuntimeRequestError)
    ensures
        r.error_type@ == "version_mismatch"@,
        r.message@ == what@ + " protocol "@ + decimal(required as nat)
            + " is required, but this host supports 2"@,
{
    let mut m = to_chars(what);
    append_str(&mut m, " protocol ");
    let d = decimal_chars(required);
    append_chars(&mut m, d.as_slice());
    append_str(&mut m, " is required, but this host supports 2");
    RuntimeRequestError::new("version_mismatch", string_from_chars(m.as_slice()))
}

/// Checks an extension's constraints against this host, whose manifest names
/// `expected_extension_id` and whose configuration names `channel`.
pub fn validate_runtime_constraints(
    expected_extension_id: Option<&str>,
    channel: Option<&str>,
    constraints: Option<&RuntimeConstraints>,
) -> (r: Result<(), RuntimeRequestError>)
    ensures
        match (r, constraints_check(opt_view(expected_extension_id), opt_view(channel), match constraints {
            Some(c) => Some(*c),
            None => None,
        })) {
            (Ok(()), Ok(())) => true,
            (Err(e), Err((t, m))) => e.error_type@ == t && e.message@ == m,
            _ => false,
        },
{
    let c = match constraints {
        None => return Ok(()),
        Some(c) => c,
    };
    if let Some(required) = c.required_native_host_protocol_version {
        if required != NATIVE_HOST_PROTOCOL_VERSION {
            let e = version_mismatch("Native host", required);
            proof {
                reveal_strlit("Native host");
                reveal_strlit(" protocol ");
                reveal_strlit("Native host protocol ");
                assert("Native host"@ + " protocol "@ =~= "Native host protocol "@);
            }
            return Err(e);
        }
    }
    if let Some(required) = c.required_app_server_protocol_version {
        if required != APP_SERVER_PROTOCOL_VERSION {
            let e = version_mismatch("App-server", required);
            proof {
                reveal_strlit("App-server");
                reveal_strlit(" protocol ");
                reveal_strlit("App-server protocol ");
                assert("App-server"@ + " protocol "@ =~= "App-server protocol "@);
            }
            return Err(e);
        }
    }
    if let (Some(expected), Some(actual)) = (expected_extension_id, &c.extension_id) {
        if !str_eq(actual.as_str(), expected) {
            return Err(
                RuntimeRequestError::new(
                    "no_matching_codex_install",
                    String::from_str("The connected extension does not match this native host manifest"),
                ),
            );
        }
    }
    if let (Some(expected), Some(actual)) = (channel, &c.extension_build_channel) {
        if !str_eq(actual.as_str(), expected) {
            let mut m = to_chars("Extension channel ");
            append_str(&mut m, actual.as_str());
            append_str(&mut m, " does not match native host channel ");
            append_str(&mut m, expected);
            return Err(
                RuntimeRequestError::new("no_matching_codex_install", string_from_chars(m.as_slice())),
            );
        }
    }
    Ok(())
}

/// The runtime methods the host answers itself.
#[derive(Debug, Clone, Copy, PartialEq, Eq, Structural)]
pub enum RuntimeMethod {
    Hello,
    Ensure,
    Restart,
    CreateAsset,
    AppendAssetChunk,
    FinishAsset,
    RemoveAsset,
    Unsupported,
}

pub open spec fn runtime_method_of(method: Seq<char>) -> RuntimeMethod {
    if method == "codexRuntime/hello"@ {
        RuntimeMethod::Hello
    } else if method == "codexRuntime/ensure"@ {
        RuntimeMethod::Ensure
    } else if method == "codexRuntime/restart"@ {
        RuntimeMethod::Restart
    } else if method == "codexRuntime/tabContextAsset/create"@ {
        RuntimeMethod::CreateAsset
    } else if method == "codexRuntime/tabContextAsset/appendChunk"@ {
        RuntimeMethod::AppendAssetChunk
    } else if method == "codexRuntime/tabContextAsset/finish"@ {
        RuntimeMethod::FinishAsset
    } else if method == "codexRuntime/tabContextAsset/abort"@
        || method == "codexRuntime/tabContextAsset/remove"@ {
        RuntimeMethod::RemoveAsset
    } else {
        RuntimeMethod::Unsupported
    }
}

/// Which runtime method a request names; aborting an asset removes it.
pub fn runtime_method(method: &str) -> (r: RuntimeMethod)
    ensures
        r == runtime_method_of(method@),
{
    if str_eq(method, "codexRuntime/hello") {
        RuntimeMethod::Hello
    } else if str_eq(method, "codexRuntime/ensure") {
        RuntimeMethod::Ensure
    } else if str_eq(method, "codexRuntime/restart") {
        RuntimeMethod::Restart
    } else if str_eq(method, "codexRuntime/tabContextAsset/create") {
        RuntimeMethod::CreateAsset
    } else if str_eq(method, "codexRuntime/tabContextAsset/appendChunk") {
        RuntimeMethod::AppendAssetChunk
    } else if str_eq(method, "codexRuntime/tabContextAsset/finish") {
        RuntimeMethod::FinishAsset
    } else if str_eq(method, "codexRuntime/tabContextAsset/abort") || str_eq(
        method,
        "codexRuntime/tabContextAsset/remove",
    ) {
        RuntimeMethod::RemoveAsset
    } else {
        RuntimeMethod::Unsupported
    }
}

/// The error for a runtime method the host does not know.
pub fn unsupported_runtime_method(method: &str) -> (r: RuntimeRequestError)
    ensures
        r.error_type@ == "app_server_runtime_error"@,
        r.message@ == "Unsupported native runtime method: "@ + method@,
{
    let mut m = to_chars("Unsupported native runtime method: ");
    append_str(&mut m, method);
    RuntimeRequestError::new("app_server_runtime_error", string_from_chars(m.as_slice()))
}

/// The error for an `ensure` or `restart` when no runtime configuration was loaded:
/// the load error when there was one.
pub fn missing_runtime_config(load_error: Option<String>) -> (r: RuntimeRequestError)
    ensures
        r.error_type@ == "required_path_missing"@,
        r.message@ == match load_error {
            Some(e) => e@,
            None => "Missing native host runtime configuration: extension-host-config.json"@,
        },
{
    let message = match load_error {
        Some(e) => e,
        None => String::from_str("Missing native host runtime configuration: extension-host-config.json"),
    };
    RuntimeRequestError::new("required_path_missing", message)
}

/// What is known of the managed app-server when an `ensure` arrives.
pub struct AppServerStatus {
    /// The process has not exited, as far as could be seen.
    pub child_running: bool,
    /// The proxy in front of it still runs.
    pub proxy_running: bool,
}

/// What becomes of the managed app-server on `ensure` or `restart`.
#[derive(Debug, Clone, Copy, PartialEq, Eq, Structural)]
pub enum AppServerPlan {
    /// Answer with the running server.
    Reuse,
    /// Stop the running server and start a new one.
    Replace,
    /// Start a server; none is running.
    Start,
}

/// A running server is reused on `ensure` when both it and its proxy still run; a
/// `restart`, or a server that stopped in part, is replaced.
pub fn plan_app_server(restart: bool, existing: Option<&AppServerStatus>) -> (r: AppServerPlan)
    ensures
        r == match existing {
            None => AppServerPlan::Start,
            Some(s) => if !restart && s.child_running && s.proxy_running {
                AppServerPlan::Reuse
            } else {
                AppServerPlan::Replace
            },
        },
{
    match existing {
        None => AppServerPlan::Start,
        Some(s) => {
            if !restart && s.child_running && s.proxy_running {
                AppServerPlan::Reuse
            } else {
                AppServerPlan::Replace
            }
        },
    }
}

/// The runtime configuration's schema version must be at least 1.
pub fn check_config_schema_version(schema_version: u64) -> (r: Result<(), String>)
    ensures
        r is Ok <==> schema_version >= 1,
        r matches Err(e) ==> e@ == "runtime config schemaVersion must be at least 1"@,
{
    if schema_version == 0 {
        Err(String::from_str("runtime config schemaVersion must be at least 1"))
    } else {
        Ok(())
    }
}

/// The configured proxy host, trimmed; it must not be blank.
pub fn normalize_proxy_host(proxy_host: &str) -> (r: Result<String, String>)
    ensures
        match r {
            Ok(h) => trim(proxy_host@).len() > 0 && h@ == trim(proxy_host@),
            Err(e) => trim(proxy_host@).len() == 0 && e@ == "proxyHost must not be empty"@,
        },
{
    let chars = to_chars(proxy_host);
    let t = trim_chars(chars.as_slice());
    if t.len() == 0 {
        Err(String::from_str("proxyHost must not be empty"))
    } else {
        Ok(string_from_chars(t.as_slice()))
    }
}

/// The configured channel, trimmed; a blank one counts as none.
pub fn normalize_channel(channel: Option<String>) -> (r: Option<String>)
    ensures
        match channel {
            None => r is None,
            Some(c) => if trim(c@).len() == 0 {
                r is None
            } else {
                r matches Some(t) && t@ == trim(c@)
            },
        },
{
    match channel {
        None => None,
        Some(c) => {
            let chars = to_chars(c.as_str());
            let t = trim_chars(chars.as_slice());
            if t.len() == 0 {
                None
            } else {
                Some(string_from_chars(t.as_slice()))
            }
        },
    }
}

/// The answer to `codexRuntime/hello`: the manifest schema and native host
/// protocol versions, the protocol versions this host accepts, and the runtime
/// methods it serves.
pub struct RuntimeHello {
    pub manifest_schema_version: u64,
    pub native_host_protocol_version: u64,
    pub supported_protocol_versions: Vec<u64>,
    pub supported_methods: Vec<String>,
}

/// The runtime methods this host serves, in the order it lists them.
pub open spec fn hello_methods() -> Seq<Seq<char>> {
    seq![
        "codexRuntime/hello"@,
        "codexRuntime/ensure"@,
        "codexRuntime/restart"@,
        "codexRuntime/tabContextAsset/create"@,
        "codexRuntime/tabContextAsset/appendChunk"@,
        "codexRuntime/tabContextAsset/finish"@,
        "codexRuntime/tabContextAsset/abort"@,
        "codexRuntime/tabContextAsset/remove"@,
    ]
}

/// What this host answers to `codexRuntime/hello`.
pub fn runtime_hello() -> (r: RuntimeHello)
    ensures
        r.manifest_schema_version == MANIFEST_SCHEMA_VERSION,
        r.native_host_protocol_version == NATIVE_HOST_PROTOCOL_VERSION,
        r.supported_protocol_versions@ == seq![NATIVE_HOST_PROTOCOL_VERSION],
        crate::commands::arg_views(r.supported_methods@) == hello_methods(),
{
    let mut versions: Vec<u64> = Vec::new();
    versions.push(NATIVE_HOST_PROTOCOL_VERSION);
    let mut methods: Vec<String> = Vec::new();
    methods.push(String::from_str("codexRuntime/hello"));
    methods.push(String::from_str("codexRuntime/ensure"));
    methods.push(String::from_str("codexRuntime/restart"));
    methods.push(String::from_str("codexRuntime/tabContextAsset/create"));
    methods.push(String::from_str("codexRuntime/tabContextAsset/appendChunk"));
    methods.push(String::from_str("codexRuntime/tabContextAsset/finish"));
    methods.push(String::from_str("codexRuntime/tabContextAsset/abort"));
    methods.push(String::from_str("codexRuntime/tabContextAsset/remove"));
    assert(versions@ =~= seq![NATIVE_HOST_PROTOCOL_VERSION]);
    assert(crate::commands::arg_views(methods@) =~= hello_methods());
    RuntimeHello {
        manifest_schema_version: MANIFEST_SCHEMA_VERSION,
        native_host_protocol_version: NATIVE_HOST_PROTOCOL_VERSION,
        supported_protocol_versions: versions,
        supported_methods: methods,
    }
}

/// The description of the browser that answers a `getInfo` which Chrome could not
/// answer itself: its name, version and type, the tab capabilities it offers (each
/// an id and a description), and the extension id when one is known.
pub struct ExtensionInfo {
    pub name: String,
    pub version: String,
    pub kind: String,
    pub tab_capabilities: Vec<(String, String)>,
    pub extension_id: Option<String>,
}

/// The one tab capability the host describes.
pub open spec fn page_assets_capability() -> (Seq<char>, Seq<char>) {
    (
        "pageAssets"@,
        "List assets already observed in the current page state and bundle selected assets into a temporary local artifact."@,
    )
}

/// The description the host gives in place of Chrome's `getInfo` answer.
pub fn extension_info(extension_id: Option<&str>) -> (r: ExtensionInfo)
    ensures
        r.name@ == "Chrome"@,
        r.version@ == "unknown"@,
        r.kind@ == "extension"@,
        r.tab_capabilities@.len() == 1,
        (r.tab_capabilities@[0].0@, r.tab_capabilities@[0].1@) == page_assets_capability(),
        match extension_id {
            Some(id) => r.extension_id matches Some(e) && e@ == id@,
            None => r.extension_id is None,
        },
{
    let mut capabilities: Vec<(String, String)> = Vec::new();
    capabilities.push(
        (
            String::from_str("pageAssets"),
            String::from_str(
                "List assets already observed in the current page state and bundle selected assets into a temporary local artifact.",
            ),
        ),
    );
    ExtensionInfo {
        name: String::from_str("Chrome"),
        version: String::from_str("unknown"),
        kind: String::from_str("extension"),
        tab_capabilities: capabilities,
        extension_id: match extension_id {
            Some(id) => Some(String::from_str(id)),
            None => None,
        },
    }
}

} // verus!
