//! Routing between Chrome (native messaging) and the connected Codex browser client.
//!
//! Requests are forwarded under ids this host makes up, and the answers are routed
//! back under the ids the requester used. The message bodies are never inspected
//! here: `Id` is the requester's own id value, carried along unchanged.
use vstd::prelude::*;
use crate::pending::{Owned, PendingTable, without_client};
use crate::text::{decimal, decimal_chars, append_chars, string_from_chars, to_chars};
use crate::pending::str_eq;

verus! {

/// A request from the browser client that Chrome has not answered yet.
pub struct PendingChromeRequest<Id> {
    pub client_id: usize,
    pub client_request_id: Id,
    pub fallback_extension_info: bool,
}

/// A request from Chrome that the browser client has not answered yet.
pub struct PendingClientRequest<Id> {
    pub client_id: usize,
    pub chrome_request_id: Id,
}

impl<Id> Owned for PendingChromeRequest<Id> {
    open spec fn owner(&self) -> usize {
        self.client_id
    }

    fn owner_id(&self) -> (r: usize) {
        self.client_id
    }
}

impl<Id> Owned for PendingClientRequest<Id> {
    open spec fn owner(&self) -> usize {
        self.client_id
    }

    fn owner_id(&self) -> (r: usize) {
        self.client_id
    }
}

/// Why a Chrome request cannot be routed to a browser client.
#[derive(Debug, PartialEq, Eq, Structural)]
pub enum ChromeClientRouteError {
    NoClients,
    MultipleClients,
}

pub open spec fn route_error_message(e: ChromeClientRouteError) -> Seq<char> {
    match e {
        ChromeClientRouteError::NoClients => "No Codex browser client is connected"@,
        ChromeClientRouteError::MultipleClients => "Multiple Codex browser clients are connected; Chrome requests require exactly one"@,
    }
}

impl ChromeClientRouteError {
    /// The error message Chrome receives.
    pub fn message(&self) -> (r: &'static str)
        ensures
            r@ == route_error_message(*self),
    {
        match self {
            ChromeClientRouteError::NoClients => "No Codex browser client is connected",
            ChromeClientRouteError::MultipleClients => {
                "Multiple Codex browser clients are connected; Chrome requests require exactly one"
            },
        }
    }
}

/// The shape of a JSON-RPC message, as routing reads it.
#[derive(Debug)]
pub enum MessageKind<Id> {
    /// Has an `id` and no string `method`; `id_str` is the id when it is a string.
    Response { id: Id, id_str: Option<String> },
    /// Has an `id` and a string `method`.
    Request { id: Id, method: String },
    /// Anything else.
    Notification,
}

pub enum MessageShape<Id> {
    Response { id: Id, id_str: Option<Seq<char>> },
    Request { id: Id, method: Seq<char> },
    Notification,
}

impl<Id> View for MessageKind<Id> {
    type V = MessageShape<Id>;

    open spec fn view(&self) -> MessageShape<Id> {
        match self {
            MessageKind::Response { id, id_str } => MessageShape::Response {
                id: *id,
                id_str: match id_str {
                    Some(s) => Some(s@),
                    None => None,
                },
            },
            MessageKind::Request { id, method } => MessageShape::Request { id: *id, method: method@ },
            MessageKind::Notification => MessageShape::Notification,
        }
    }
}

/// What to do with a message from the browser client.
#[derive(Debug)]
pub enum ClientAction<Id> {
    /// Drop the message.
    Ignore,
    /// Send the message to Chrome, with its id replaced when one is given.
    ForwardToChrome { replace_id: Option<Id> },
    /// Answer the client's `ping` with `pong` under its id.
    Pong { id: Id },
    /// Send the request to Chrome under the new id `chrome_id`.
    ForwardRequest { chrome_id: String },
}

pub enum ClientOutcome<Id> {
    Ignore,
    ForwardToChrome { replace_id: Option<Id> },
    Pong { id: Id },
    ForwardRequest { chrome_id: Seq<char> },
}

impl<Id> View for ClientAction<Id> {
    type V = ClientOutcome<Id>;

    open spec fn view(&self) -> ClientOutcome<Id> {
        match self {
            ClientAction::Ignore => ClientOutcome::Ignore,
            ClientAction::ForwardToChrome { replace_id } => ClientOutcome::ForwardToChrome {
                replace_id: *replace_id,
            },
            ClientAction::Pong { id } => ClientOutcome::Pong { id: *id },
            ClientAction::ForwardRequest { chrome_id } => ClientOutcome::ForwardRequest {
                chrome_id: chrome_id@,
            },
        }
    }
}

/// What to do with a message from Chrome.
#[derive(Debug)]
pub enum ChromeAction<Id> {
    /// Drop the message.
    Ignore,
    /// Send the message to a client with its id replaced by `id`.
    ForwardToClient { client_id: usize, id: Id },
    /// Answer the client's `getInfo` under `id` with the extension description.
    ExtensionInfo { client_id: usize, id: Id },
    /// The request is for this host's own runtime methods.
    RuntimeRequest,
    /// Send the message to every client.
    Broadcast,
    /// Answer Chrome's request with this routing error.
    RouteError { error: ChromeClientRouteError },
    /// Send the request to the client under the new id `client_request_id`.
    ForwardRequest { client_id: usize, client_request_id: String },
}

pub enum ChromeOutcome<Id> {
    Ignore,
    ForwardToClient { client_id: usize, id: Id },
    ExtensionInfo { client_id: usize, id: Id },
    RuntimeRequest,
    Broadcast,
    RouteError { error: ChromeClientRouteError },
    ForwardRequest { client_id: usize, client_request_id: Seq<char> },
}

impl<Id> View for ChromeAction<Id> {
    type V = ChromeOutcome<Id>;

    open spec fn view(&self) -> ChromeOutcome<Id> {
        match self {
            ChromeAction::Ignore => ChromeOutcome::Ignore,
            ChromeAction::ForwardToClient { client_id, id } => ChromeOutcome::ForwardToClient {
                client_id: *client_id,
                id: *id,
            },
            ChromeAction::ExtensionInfo { client_id, id } => ChromeOutcome::ExtensionInfo {
                client_id: *client_id,
                id: *id,
            },
            ChromeAction::RuntimeRequest => ChromeOutcome::RuntimeRequest,
            ChromeAction::Broadcast => ChromeOutcome::Broadcast,
            ChromeAction::RouteError { error } => ChromeOutcome::RouteError { error: *error },
            ChromeAction::ForwardRequest { client_id, client_request_id } =>
                ChromeOutcome::ForwardRequest {
                client_id: *client_id,
                client_request_id: client_request_id@,
            },
        }
    }
}

/// The routing state: connected clients, the two tables of pending requests, and
/// the counters that new ids are made from.
#[verifier::ext_equal]
pub struct RouterState<Id> {
    pub clients: Seq<usize>,
    pub chrome: Map<Seq<char>, PendingChromeRequest<Id>>,
    pub client: Map<Seq<char>, PendingClientRequest<Id>>,
    pub next_client_id: usize,
    pub next_chrome_id: u64,
    pub next_client_request_id: u64,
    pub process_id: u32,
}

/// The id under which a client request is forwarded to Chrome: `linux-<pid>-<n>`.
pub open spec fn chrome_request_key(process_id: u32, n: u64) -> Seq<char> {
    "linux-"@ + decimal(process_id as nat) + "-"@ + decimal(n as nat)
}

/// The id under which a Chrome request is forwarded to the client: `chrome-<pid>-<n>`.
pub open spec fn client_request_key(process_id: u32, n: u64) -> Seq<char> {
    "chrome-"@ + decimal(process_id as nat) + "-"@ + decimal(n as nat)
}

/// Runtime methods this host answers itself.
pub open spec fn direct_runtime_method(method: Seq<char>) -> bool {
    ||| method == "codexRuntime/hello"@
    ||| method == "codexRuntime/ensure"@
    ||| method == "codexRuntime/restart"@
    ||| method == "codexRuntime/tabContextAsset/create"@
    ||| method == "codexRuntime/tabContextAsset/appendChunk"@
    ||| method == "codexRuntime/tabContextAsset/finish"@
    ||| method == "codexRuntime/tabContextAsset/abort"@
    ||| method == "codexRuntime/tabContextAsset/remove"@
}

/// Whether Chrome's request is one of the runtime methods this host answers itself.
pub fn is_direct_runtime_method(method: &str) -> (r: bool)
    ensures
        r == direct_runtime_method(method@),
{
    str_eq(method, "codexRuntime/hello") || str_eq(method, "codexRuntime/ensure") || str_eq(
        method,
        "codexRuntime/restart",
    ) || str_eq(method, "codexRuntime/tabContextAsset/create") || str_eq(
        method,
        "codexRuntime/tabContextAsset/appendChunk",
    ) || str_eq(method, "codexRuntime/tabContextAsset/finish") || str_eq(
        method,
        "codexRuntime/tabContextAsset/abort",
    ) || str_eq(method, "codexRuntime/tabContextAsset/remove")
}

/// How a message from `client_id` changes the routing state, and what is done with it.
pub open spec fn client_transition<Id>(r: RouterState<Id>, client_id: usize, m: MessageShape<Id>) -> (
    RouterState<Id>,
    ClientOutcome<Id>,
) {
    if !r.clients.contains(client_id) {
        (r, ClientOutcome::Ignore)
    } else {
        match m {
            MessageShape::Response { id, id_str } => match id_str {
                None => (r, ClientOutcome::Ignore),
                Some(k) => if r.client.dom().contains(k) && r.client[k].client_id == client_id {
                    (
                        RouterState { client: r.client.remove(k), ..r },
                        ClientOutcome::ForwardToChrome { replace_id: Some(r.client[k].chrome_request_id) },
                    )
                } else {
                    (r, ClientOutcome::Ignore)
                },
            },
            MessageShape::Notification => (r, ClientOutcome::ForwardToChrome { replace_id: None }),
            MessageShape::Request { id, method } => if method == "ping"@ {
                (r, ClientOutcome::Pong { id })
            } else {
                let key = chrome_request_key(r.process_id, r.next_chrome_id);
                (
                    RouterState {
                        chrome: r.chrome.insert(
                            key,
                            PendingChromeRequest {
                                client_id,
                                client_request_id: id,
                                fallback_extension_info: method == "getInfo"@,
                            },
                        ),
                        next_chrome_id: (r.next_chrome_id + 1) as u64,
                        ..r
                    },
                    ClientOutcome::ForwardRequest { chrome_id: key },
                )
            },
        }
    }
}

/// How a message from Chrome changes the routing state, and what is done with it.
/// `missing_get_version` tells whether the message is an error saying that
/// `chrome.runtime.getVersion` is not a function.
pub open spec fn chrome_transition<Id>(
    r: RouterState<Id>,
    m: MessageShape<Id>,
    missing_get_version: bool,
) -> (RouterState<Id>, ChromeOutcome<Id>) {
    match m {
        MessageShape::Response { id, id_str } => match id_str {
            None => (r, ChromeOutcome::Ignore),
            Some(k) => if r.chrome.dom().contains(k) {
                let p = r.chrome[k];
                let r2 = RouterState { chrome: r.chrome.remove(k), ..r };
                if p.fallback_extension_info && missing_get_version {
                    (r2, ChromeOutcome::ExtensionInfo { client_id: p.client_id, id: p.client_request_id })
                } else {
                    (r2, ChromeOutcome::ForwardToClient { client_id: p.client_id, id: p.client_request_id })
                }
            } else {
                (r, ChromeOutcome::Ignore)
            },
        },
        MessageShape::Request { id, method } => if direct_runtime_method(method) {
            (r, ChromeOutcome::RuntimeRequest)
        } else if r.clients.len() == 0 {
            (r, ChromeOutcome::RouteError { error: ChromeClientRouteError::NoClients })
        } else if r.clients.len() > 1 {
            (r, ChromeOutcome::RouteError { error: ChromeClientRouteError::MultipleClients })
        } else {
            let c = r.clients[0];
            let key = client_request_key(r.process_id, r.next_client_request_id);
            (
                RouterState {
                    client: r.client.insert(
                        key,
                        PendingClientRequest { client_id: c, chrome_request_id: id },
                    ),
                    next_client_request_id: (r.next_client_request_id + 1) as u64,
                    ..r
                },
                ChromeOutcome::ForwardRequest { client_id: c, client_request_id: key },
            )
        },
        MessageShape::Notification => (r, ChromeOutcome::Broadcast),
    }
}

pub open spec fn other_than(client_id: usize) -> spec_fn(usize) -> bool {
    |c: usize| c != client_id
}

/// Which client a Chrome request goes to: the only connected one, or an error when
/// none or several are connected.
pub fn select_single_client_id(clients: &[usize]) -> (r: Result<usize, ChromeClientRouteError>)
    ensures
        match r {
            Ok(c) => clients@.len() == 1 && c == clients@[0],
            Err(ChromeClientRouteError::NoClients) => clients@.len() == 0,
            Err(ChromeClientRouteError::MultipleClients) => clients@.len() > 1,
        },
{
    if clients.len() == 0 {
        Err(ChromeClientRouteError::NoClients)
    } else if clients.len() == 1 {
        Ok(clients[0])
    } else {
        Err(ChromeClientRouteError::MultipleClients)
    }
}

/// Drops, from both tables, every pending request that belongs to `client_id`.
pub fn remove_pending_requests_for_client<Id>(
    pending_chrome: &mut PendingTable<PendingChromeRequest<Id>>,
    pending_client: &mut PendingTable<PendingClientRequest<Id>>,
    client_id: usize,
)
    requires
        old(pending_chrome).wf(),
        old(pending_client).wf(),
    ensures
        final(pending_chrome).wf(),
        final(pending_client).wf(),
        final(pending_chrome)@ == without_client(old(pending_chrome)@, client_id),
        final(pending_client)@ == without_client(old(pending_client)@, client_id),
{
    pending_chrome.remove_client(client_id);
    pending_client.remove_client(client_id);
}

/// A request that a connected client sends (other than `ping`) goes to Chrome under a
/// fresh id; Chrome's answer under that id goes back to the same client under the
/// client's own id, and the pending entry is gone. A `getInfo` answered by the
/// missing-`getVersion` error is answered with the extension description instead.
pub proof fn law_client_request_round_trip<Id>(
    r: RouterState<Id>,
    client_id: usize,
    id: Id,
    method: Seq<char>,
    answer_id: Id,
    missing_get_version: bool,
)
    requires
        r.clients.contains(client_id),
        method != "ping"@,
        r.next_chrome_id < u64::MAX,
    ensures
        ({
            let key = chrome_request_key(r.process_id, r.next_chrome_id);
            let (r1, o1) = client_transition(r, client_id, MessageShape::Request { id, method });
            let (r2, o2) = chrome_transition(
                r1,
                MessageShape::Response { id: answer_id, id_str: Some(key) },
                missing_get_version,
            );
            &&& o1 == ClientOutcome::<Id>::ForwardRequest { chrome_id: key }
            &&& o2 == (if method == "getInfo"@ && missing_get_version {
                ChromeOutcome::ExtensionInfo { client_id, id }
            } else {
                ChromeOutcome::ForwardToClient { client_id, id }
            })
            &&& r2.chrome == r.chrome.remove(key)
            &&& r2.client == r.client
            &&& r2.clients == r.clients
        }),
{
    let key = chrome_request_key(r.process_id, r.next_chrome_id);
    let (r1, o1) = client_transition(r, client_id, MessageShape::Request { id, method });
    assert(r1.chrome.dom().contains(key));
    assert(r1.chrome.remove(key) =~= r.chrome.remove(key));
}

/// A Chrome request that is not for the host itself goes, when exactly one client is
/// connected, to that client under a fresh id; the client's answer under that id goes
/// back to Chrome under Chrome's own id, and the pending entry is gone.
pub proof fn law_chrome_request_round_trip<Id>(
    r: RouterState<Id>,
    id: Id,
    method: Seq<char>,
    answer_id: Id,
    missing_get_version: bool,
)
    requires
        r.clients.len() == 1,
        !direct_runtime_method(method),
        r.next_client_request_id < u64::MAX,
    ensures
        ({
            let key = client_request_key(r.process_id, r.next_client_request_id);
            let c = r.clients[0];
            let (r1, o1) = chrome_transition(
                r,
                MessageShape::Request { id, method },
                missing_get_version,
            );
            let (r2, o2) = client_transition(
                r1,
                c,
                MessageShape::Response { id: answer_id, id_str: Some(key) },
            );
            &&& o1 == ChromeOutcome::<Id>::ForwardRequest { client_id: c, client_request_id: key }
            &&& o2 == ClientOutcome::ForwardToChrome { replace_id: Some(id) }
            &&& r2.client == r.client.remove(key)
            &&& r2.chrome == r.chrome
            &&& r2.clients == r.clients
        }),
{
    let key = client_request_key(r.process_id, r.next_client_request_id);
    let (r1, o1) = chrome_transition(r, MessageShape::Request { id, method }, missing_get_version);
    assert(r1.clients.contains(r.clients[0]));
    assert(r1.client.dom().contains(key));
    assert(r1.client.remove(key) =~= r.client.remove(key));
}

/// A message from a client that is not connected (never was, left, or was evicted)
/// is dropped and changes nothing.
pub proof fn law_unknown_client_is_ignored<Id>(
    r: RouterState<Id>,
    client_id: usize,
    m: MessageShape<Id>,
)
    requires
        !r.clients.contains(client_id),
    ensures
        client_transition(r, client_id, m) == (r, ClientOutcome::<Id>::Ignore),
{
}

/// A connected client's `ping` is answered by the host itself with a pong under
/// the ping's own id, and changes nothing; and the host answers nothing else with a
/// pong.
pub proof fn law_ping_is_answered_by_the_host<Id>(
    r: RouterState<Id>,
    client_id: usize,
    id: Id,
    m: MessageShape<Id>,
)
    ensures
        r.clients.contains(client_id) ==> (client_transition(
            r,
            client_id,
            (MessageShape::Request { id, method: "ping"@ }),
        ) == (r, (ClientOutcome::Pong { id }))),
        (client_transition(r, client_id, m).1 is Pong) ==> (m == (MessageShape::Request {
            id: client_transition(r, client_id, m).1->Pong_id,
            method: "ping"@,
        }) && client_transition(r, client_id, m).0 == r),
{
}

/// A Chrome request that is not for the host itself is refused, with nothing changed,
/// unless exactly one client is connected.
pub proof fn law_chrome_request_needs_exactly_one_client<Id>(
    r: RouterState<Id>,
    id: Id,
    method: Seq<char>,
    missing_get_version: bool,
)
    requires
        !direct_runtime_method(method),
        r.clients.len() != 1,
    ensures
        chrome_transition(r, MessageShape::Request { id, method }, missing_get_version) == (
            r,
            ChromeOutcome::<Id>::RouteError {
                error: if r.clients.len() == 0 {
                    ChromeClientRouteError::NoClients
                } else {
                    ChromeClientRouteError::MultipleClients
                },
            },
        ),
{
}

/// After a client disconnects, nothing pending belongs to it, everything pending for
/// other clients stays as it was, and its later messages are dropped.
pub proof fn law_disconnected_client_leaves_nothing_behind<Id>(
    r: RouterState<Id>,
    client_id: usize,
    m: MessageShape<Id>,
)
    ensures
        ({
            let after = after_remove(r, client_id);
            &&& forall|k: Seq<char>| #[trigger] after.chrome.dom().contains(k) <==> (r.chrome.dom().contains(k)
                && r.chrome[k].client_id != client_id)
            &&& forall|k: Seq<char>| #[trigger] after.client.dom().contains(k) <==> (r.client.dom().contains(k)
                && r.client[k].client_id != client_id)
            &&& forall|k: Seq<char>| #[trigger] after.chrome.dom().contains(k) ==> after.chrome[k] == r.chrome[k]
            &&& forall|k: Seq<char>| #[trigger] after.client.dom().contains(k) ==> after.client[k] == r.client[k]
            &&& client_transition(after, client_id, m) == (after, ClientOutcome::<Id>::Ignore)
        }),
{
    let after_clients = r.clients.filter(other_than(client_id));
    if after_clients.contains(client_id) {
        let i = choose|i: int| 0 <= i < after_clients.len() && after_clients[i] == client_id;
        r.clients.lemma_filter_pred(other_than(client_id), i);
    }
}

/// The routing state after a new client connected: it is the only client, and when
/// earlier clients were evicted nothing pending survives.
pub open spec fn after_replace<Id>(r: RouterState<Id>) -> RouterState<Id> {
    RouterState {
        clients: seq![r.next_client_id],
        chrome: if r.clients.len() == 0 {
            r.chrome
        } else {
            Map::empty()
        },
        client: if r.clients.len() == 0 {
            r.client
        } else {
            Map::empty()
        },
        next_client_id: (r.next_client_id + 1) as usize,
        ..r
    }
}

/// The routing state after `client_id` disconnected: the client and everything
/// pending for it are gone.
pub open spec fn after_remove<Id>(r: RouterState<Id>, client_id: usize) -> RouterState<Id> {
    RouterState {
        clients: r.clients.filter(other_than(client_id)),
        chrome: without_client(r.chrome, client_id),
        client: without_client(r.client, client_id),
        ..r
    }
}

/// Every pending request is filed under an id this host made up from a number it has
/// already used.
pub open spec fn ids_issued<Id>(r: RouterState<Id>) -> bool {
    &&& forall|k: Seq<char>|
        #[trigger] r.chrome.dom().contains(k) ==> exists|n: u64|
            n < r.next_chrome_id && k == chrome_request_key(r.process_id, n)
    &&& forall|k: Seq<char>|
        #[trigger] r.client.dom().contains(k) ==> exists|n: u64|
            n < r.next_client_request_id && k == client_request_key(r.process_id, n)
}

proof fn lemma_keys_injective(p: Seq<char>, pid: u32, a: u64, b: u64)
    requires
        p + decimal(pid as nat) + "-"@ + decimal(a as nat) == p + decimal(pid as nat) + "-"@ + decimal(
            b as nat,
        ),
    ensures
        a == b,
{
    let q = p + decimal(pid as nat) + "-"@;
    assert((q + decimal(a as nat)).skip(q.len() as int) =~= decimal(a as nat));
    assert((q + decimal(b as nat)).skip(q.len() as int) =~= decimal(b as nat));
    crate::text::lemma_decimal_injective(a as nat, b as nat);
}

/// A request this host forwards never takes the id of one still pending, so no
/// pending request is ever overwritten; a new router starts with that property, and
/// every message, connection and disconnection keeps it.
pub proof fn law_forwarded_ids_are_fresh<Id>(
    r: RouterState<Id>,
    client_id: usize,
    m: MessageShape<Id>,
    missing_get_version: bool,
)
    requires
        ids_issued(r),
    ensures
        !r.chrome.dom().contains(chrome_request_key(r.process_id, r.next_chrome_id)),
        !r.client.dom().contains(client_request_key(r.process_id, r.next_client_request_id)),
        ids_issued(
            RouterState::<Id> {
                clients: Seq::empty(),
                chrome: Map::empty(),
                client: Map::empty(),
                next_client_id: 1,
                next_chrome_id: 1,
                next_client_request_id: 1,
                process_id: r.process_id,
            },
        ),
        r.next_chrome_id < u64::MAX ==> ids_issued(client_transition(r, client_id, m).0),
        r.next_client_request_id < u64::MAX ==> ids_issued(
            chrome_transition(r, m, missing_get_version).0,
        ),
        ids_issued(after_replace(r)),
        ids_issued(after_remove(r, client_id)),
{
    let kc = chrome_request_key(r.process_id, r.next_chrome_id);
    if r.chrome.dom().contains(kc) {
        let n = choose|n: u64| n < r.next_chrome_id && kc == chrome_request_key(r.process_id, n);
        lemma_keys_injective("linux-"@, r.process_id, n, r.next_chrome_id);
    }
    let kl = client_request_key(r.process_id, r.next_client_request_id);
    if r.client.dom().contains(kl) {
        let n = choose|n: u64|
            n < r.next_client_request_id && kl == client_request_key(r.process_id, n);
        lemma_keys_injective("chrome-"@, r.process_id, n, r.next_client_request_id);
    }
    if r.next_chrome_id < u64::MAX {
        let r2 = client_transition(r, client_id, m).0;
        assert forall|k: Seq<char>| #[trigger] r2.chrome.dom().contains(k) implies exists|n: u64|
            n < r2.next_chrome_id && k == chrome_request_key(r2.process_id, n) by {
            if r.chrome.dom().contains(k) {
                let n = choose|n: u64| n < r.next_chrome_id && k == chrome_request_key(r.process_id, n);
                assert(n < r2.next_chrome_id && k == chrome_request_key(r2.process_id, n));
            } else {
                assert(k == kc);
                assert(r.next_chrome_id < r2.next_chrome_id && k == chrome_request_key(
                    r2.process_id,
                    r.next_chrome_id,
                ));
            }
        }
    }
    if r.next_chrome_id < u64::MAX {
        let r2 = client_transition(r, client_id, m).0;
        assert forall|k: Seq<char>| #[trigger] r2.client.dom().contains(k) implies exists|n: u64|
            n < r2.next_client_request_id && k == client_request_key(r2.process_id, n) by {
            assert(r.client.dom().contains(k));
            let n = choose|n: u64|
                n < r.next_client_request_id && k == client_request_key(r.process_id, n);
            assert(n < r2.next_client_request_id && k == client_request_key(r2.process_id, n));
        }
    }
    if r.next_client_request_id < u64::MAX {
        let r2 = chrome_transition(r, m, missing_get_version).0;
        assert forall|k: Seq<char>| #[trigger] r2.chrome.dom().contains(k) implies exists|n: u64|
            n < r2.next_chrome_id && k == chrome_request_key(r2.process_id, n) by {
            assert(r.chrome.dom().contains(k));
            let n = choose|n: u64| n < r.next_chrome_id && k == chrome_request_key(r.process_id, n);
            assert(n < r2.next_chrome_id && k == chrome_request_key(r2.process_id, n));
        }
    }
    if r.next_client_request_id < u64::MAX {
        let r2 = chrome_transition(r, m, missing_get_version).0;
        assert forall|k: Seq<char>| #[trigger] r2.client.dom().contains(k) implies exists|n: u64|
            n < r2.next_client_request_id && k == client_request_key(r2.process_id, n) by {
            if r.client.dom().contains(k) {
                let n = choose|n: u64|
                    n < r.next_client_request_id && k == client_request_key(r.process_id, n);
                assert(n < r2.next_client_request_id && k == client_request_key(r2.process_id, n));
            } else {
                assert(k == kl);
                assert(r.next_client_request_id < r2.next_client_request_id && k
                    == client_request_key(r2.process_id, r.next_client_request_id));
            }
        }
    }
    let others = seq![after_replace(r), after_remove(r, client_id)];
    assert forall|j: int| 0 <= j < 2 implies #[trigger] ids_issued(others[j]) by {
        let r2 = others[j];
        assert forall|k: Seq<char>| #[trigger] r2.chrome.dom().contains(k) implies exists|n: u64|
            n < r2.next_chrome_id && k == chrome_request_key(r2.process_id, n) by {
            assert(r.chrome.dom().contains(k));
            let n = choose|n: u64| n < r.next_chrome_id && k == chrome_request_key(r.process_id, n);
            assert(n < r2.next_chrome_id && k == chrome_request_key(r2.process_id, n));
        }
        assert forall|k: Seq<char>| #[trigger] r2.client.dom().contains(k) implies exists|n: u64|
            n < r2.next_client_request_id && k == client_request_key(r2.process_id, n) by {
            assert(r.client.dom().contains(k));
            let n = choose|n: u64|
                n < r.next_client_request_id && k == client_request_key(r.process_id, n);
            assert(n < r2.next_client_request_id && k == client_request_key(r2.process_id, n));
        }
    }
    assert(ids_issued(others[0]) && ids_issued(others[1]));
}

/// The routing state of the native host.
pub struct Router<Id> {
    process_id: u32,
    clients: Vec<usize>,
    pending_chrome_requests: PendingTable<PendingChromeRequest<Id>>,
    pending_client_requests: PendingTable<PendingClientRequest<Id>>,
    next_client_id: usize,
    next_chrome_id: u64,
    next_client_request_id: u64,
}

impl<Id> View for Router<Id> {
    type V = RouterState<Id>;

    closed spec fn view(&self) -> RouterState<Id> {
        RouterState {
            clients: self.clients@,
            chrome: self.pending_chrome_requests@,
            client: self.pending_client_requests@,
            next_client_id: self.next_client_id,
            next_chrome_id: self.next_chrome_id,
            next_client_request_id: self.next_client_request_id,
            process_id: self.process_id,
        }
    }
}

pub(crate) fn request_key(prefix: &str, process_id: u32, n: u64) -> (r: String)
    ensures
        r@ == prefix@ + decimal(process_id as nat) + "-"@ + decimal(n as nat),
{
    let mut v = to_chars(prefix);
    let p = decimal_chars(process_id as u64);
    append_chars(&mut v, p.as_slice());
    v.push('-');
    let d = decimal_chars(n);
    append_chars(&mut v, d.as_slice());
    proof {
        assert(seq!['-'] == "-"@) by {
            reveal_strlit("-");
        }
        assert(v@ =~= prefix@ + decimal(process_id as nat) + "-"@ + decimal(n as nat));
    }
    string_from_chars(v.as_slice())
}

impl<Id> Router<Id> {
    /// The router's own bookkeeping holds: ids in the tables are unique and no
    /// client is listed twice.
    pub closed spec fn wf(&self) -> bool {
        &&& self.pending_chrome_requests.wf()
        &&& self.pending_client_requests.wf()
        &&& self.clients@.no_duplicates()
        &&& forall|i: int| 0 <= i < self.clients@.len() ==> self.clients@[i] < self.next_client_id
    }

    /// A router with no clients and nothing pending; `process_id` goes into the ids
    /// it makes up.
    pub fn new(process_id: u32) -> (r: Self)
        ensures
            r.wf(),
            r@ == (RouterState::<Id> {
                clients: Seq::empty(),
                chrome: Map::empty(),
                client: Map::empty(),
                next_client_id: 1,
                next_chrome_id: 1,
                next_client_request_id: 1,
                process_id,
            }),
    {
        let r = Router {
            process_id,
            clients: Vec::new(),
            pending_chrome_requests: PendingTable::new(),
            pending_client_requests: PendingTable::new(),
            next_client_id: 1,
            next_chrome_id: 1,
            next_client_request_id: 1,
        };
        assert(r.clients@ =~= Seq::<usize>::empty());
        r
    }

    /// The id the next browser client gets.
    pub fn next_client_id(&self) -> (r: usize)
        ensures
            r == self@.next_client_id,
    {
        self.next_client_id
    }

    /// The number the next id of a request forwarded to Chrome is made from.
    pub fn next_chrome_id(&self) -> (r: u64)
        ensures
            r == self@.next_chrome_id,
    {
        self.next_chrome_id
    }

    /// The number the next id of a request forwarded to the client is made from.
    pub fn next_client_request_id(&self) -> (r: u64)
        ensures
            r == self@.next_client_request_id,
    {
        self.next_client_request_id
    }

    /// Whether `client_id` is connected.
    pub fn has_client(&self, client_id: usize) -> (r: bool)
        ensures
            r == self@.clients.contains(client_id),
    {
        let mut i: usize = 0;
        while i < self.clients.len()
            invariant
                i <= self.clients.len(),
                forall|k: int| 0 <= k < i ==> self.clients@[k] != client_id,
            decreases self.clients.len() - i,
        {
            if self.clients[i] == client_id {
                return true;
            }
            i = i + 1;
        }
        false
    }

    /// The connected client ids.
    pub fn client_ids(&self) -> (r: Vec<usize>)
        ensures
            r@ == self@.clients,
    {
        self.clients.clone()
    }

    /// Whether a request forwarded to Chrome waits under `id`.
    pub fn has_pending_chrome_request(&self, id: &str) -> (r: bool)
        requires
            self.wf(),
        ensures
            r == self@.chrome.dom().contains(id@),
    {
        self.pending_chrome_requests.contains_key(id)
    }

    /// Whether a request forwarded to the client waits under `id`.
    pub fn has_pending_client_request(&self, id: &str) -> (r: bool)
        requires
            self.wf(),
        ensures
            r == self@.client.dom().contains(id@),
    {
        self.pending_client_requests.contains_key(id)
    }

    /// The request forwarded to Chrome that waits under `id`.
    pub fn pending_chrome_request(&self, id: &str) -> (r: Option<&PendingChromeRequest<Id>>)
        requires
            self.wf(),
        ensures
            match r {
                Some(p) => self@.chrome.dom().contains(id@) && self@.chrome[id@] == *p,
                None => !self@.chrome.dom().contains(id@),
            },
    {
        self.pending_chrome_requests.get(id)
    }

    /// The request forwarded to the client that waits under `id`.
    pub fn pending_client_request(&self, id: &str) -> (r: Option<&PendingClientRequest<Id>>)
        requires
            self.wf(),
        ensures
            match r {
                Some(p) => self@.client.dom().contains(id@) && self@.client[id@] == *p,
                None => !self@.client.dom().contains(id@),
            },
    {
        self.pending_client_requests.get(id)
    }

    /// Whether any forwarded request is still unanswered.
    pub fn has_pending_requests(&self) -> (r: bool)
        ensures
            r == !(self@.chrome == Map::<Seq<char>, PendingChromeRequest<Id>>::empty()
                && self@.client == Map::<Seq<char>, PendingClientRequest<Id>>::empty()),
    {
        !(self.pending_chrome_requests.is_empty() && self.pending_client_requests.is_empty())
    }

    /// A new browser client connects: every earlier client is evicted, and when there
    /// were any, everything pending is forgotten. Returns the new client's id and the
    /// evicted ids.
    pub fn replace_with_client(&mut self) -> (r: (usize, Vec<usize>))
        requires
            old(self).wf(),
            old(self)@.next_client_id < usize::MAX,
        ensures
            final(self).wf(),
            r.0 == old(self)@.next_client_id,
            r.1@ == old(self)@.clients,
            !r.1@.contains(r.0),
            final(self)@ == after_replace(old(self)@),
    {
        let evicted = self.clients.clone();
        if evicted.len() > 0 {
            self.pending_chrome_requests.clear();
            self.pending_client_requests.clear();
        }
        let id = self.next_client_id;
        self.next_client_id = self.next_client_id + 1;
        self.clients = Vec::new();
        self.clients.push(id);
        assert(self.clients@ =~= seq![id]);
        (id, evicted)
    }

    /// A client disconnects: it and everything pending for it are dropped.
    pub fn remove_client(&mut self, client_id: usize)
        requires
            old(self).wf(),
        ensures
            final(self).wf(),
            final(self)@ == after_remove(old(self)@, client_id),
    {
        let mut kept: Vec<usize> = Vec::new();
        let mut i: usize = 0;
        let ghost old_clients = self.clients@;
        while i < self.clients.len()
            invariant
                i <= self.clients.len(),
                self.clients@ == old_clients,
                old_clients.no_duplicates(),
                kept@ == old_clients.take(i as int).filter(other_than(client_id)),
                kept@.no_duplicates(),
            decreases self.clients.len() - i,
        {
            let c = self.clients[i];
            proof {
                assert(old_clients.take(i + 1) =~= old_clients.take(i as int).push(c));
                old_clients.take(i as int).lemma_filter_push(c, other_than(client_id));
            }
            if c != client_id {
                proof {
                    if kept@.contains(c) {
                        old_clients.take(i as int).lemma_filter_contains_rev(other_than(client_id), c);
                        let j = choose|j: int| 0 <= j < i && old_clients.take(i as int)[j] == c;
                        assert(old_clients[j] == c);
                        assert(old_clients[i as int] == c);
                    }
                }
                kept.push(c);
                assert(kept@ == old_clients.take(i + 1).filter(other_than(client_id)));
            } else {
                assert(kept@ == old_clients.take(i + 1).filter(other_than(client_id)));
            }
            i = i + 1;
        }
        assert(old_clients.take(old_clients.len() as int) =~= old_clients);
        assert forall|k: int| 0 <= k < kept@.len() implies kept@[k] < self.next_client_id by {
            assert(kept@.contains(kept@[k]));
            old_clients.lemma_filter_contains_rev(other_than(client_id), kept@[k]);
        }
        self.clients = kept;
        remove_pending_requests_for_client(
            &mut self.pending_chrome_requests,
            &mut self.pending_client_requests,
            client_id,
        );
    }

    /// Routes a message from the browser client `client_id`.
    pub fn handle_client_message(&mut self, client_id: usize, message: MessageKind<Id>) -> (r:
        ClientAction<Id>)
        requires
            old(self).wf(),
            old(self)@.next_chrome_id < u64::MAX,
        ensures
            final(self).wf(),
            (final(self)@, r@) == client_transition(old(self)@, client_id, message@),
    {
        if !self.has_client(client_id) {
            return ClientAction::Ignore;
        }
        match message {
            MessageKind::Response { id: _, id_str } => {
                let key = match id_str {
                    Some(k) => k,
                    None => return ClientAction::Ignore,
                };
                let owner = match self.pending_client_requests.get(key.as_str()) {
                    Some(p) => p.client_id,
                    None => return ClientAction::Ignore,
                };
                if owner != client_id {
                    return ClientAction::Ignore;
                }
                let pending = self.pending_client_requests.remove(key.as_str());
                match pending {
                    Some(p) => ClientAction::ForwardToChrome { replace_id: Some(p.chrome_request_id) },
                    None => ClientAction::Ignore,
                }
            },
            MessageKind::Notification => ClientAction::ForwardToChrome { replace_id: None },
            MessageKind::Request { id, method } => {
                if str_eq(method.as_str(), "ping") {
                    return ClientAction::Pong { id };
                }
                let fallback_extension_info = str_eq(method.as_str(), "getInfo");
                let key = request_key("linux-", self.process_id, self.next_chrome_id);
                self.next_chrome_id = self.next_chrome_id + 1;
                let chrome_id = key.clone();
                self.pending_chrome_requests.insert(
                    key,
                    PendingChromeRequest { client_id, client_request_id: id, fallback_extension_info },
                );
                ClientAction::ForwardRequest { chrome_id }
            },
        }
    }

    /// Routes a message from Chrome. `missing_get_version` tells whether the message
    /// is an error saying that `chrome.runtime.getVersion` is not a function.
    pub fn handle_chrome_message(&mut self, message: MessageKind<Id>, missing_get_version: bool) -> (r:
        ChromeAction<Id>)
        requires
            old(self).wf(),
            old(self)@.next_client_request_id < u64::MAX,
        ensures
            final(self).wf(),
            (final(self)@, r@) == chrome_transition(old(self)@, message@, missing_get_version),
    {
        match message {
            MessageKind::Response { id: _, id_str } => {
                let key = match id_str {
                    Some(k) => k,
                    None => return ChromeAction::Ignore,
                };
                match self.pending_chrome_requests.remove(key.as_str()) {
                    None => ChromeAction::Ignore,
                    Some(p) => {
                        if p.fallback_extension_info && missing_get_version {
                            ChromeAction::ExtensionInfo { client_id: p.client_id, id: p.client_request_id }
                        } else {
                            ChromeAction::ForwardToClient { client_id: p.client_id, id: p.client_request_id }
                        }
                    },
                }
            },
            MessageKind::Request { id, method } => {
                if is_direct_runtime_method(method.as_str()) {
                    return ChromeAction::RuntimeRequest;
                }
                match select_single_client_id(self.clients.as_slice()) {
                    Err(error) => ChromeAction::RouteError { error },
                    Ok(c) => {
                        let key = request_key("chrome-", self.process_id, self.next_client_request_id);
                        self.next_client_request_id = self.next_client_request_id + 1;
                        let client_request_id = key.clone();
                        self.pending_client_requests.insert(
                            key,
                            PendingClientRequest { client_id: c, chrome_request_id: id },
                        );
                        ChromeAction::ForwardRequest { client_id: c, client_request_id }
                    },
                }
            },
            MessageKind::Notification => ChromeAction::Broadcast,
        }
    }
}

} // verus!
