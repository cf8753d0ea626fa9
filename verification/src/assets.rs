//! Temporary browser assets ("tab context assets") the extension writes through the
//! host, and the extension id the host was started for.
use vstd::prelude::*;
use base64::Engine;
use crate::path::{file_name, path_file_name};
use crate::pending::PendingTable;
use crate::runtime::RuntimeRequestError;
use crate::text::{
    append_chars, append_str, before_first, chars_starts_with, decimal, decimal_chars,
    before_first_char, slice_range, starts_with, string_from_chars, to_chars,
};

verus! {

/// The largest browser asset the host accepts: 256 MiB.
pub const MAX_TAB_CONTEXT_ASSET_BYTES: u64 = 268435456;

/// An extension id: 32 letters from `a` to `p`.
pub open spec fn extension_id_ok(s: Seq<char>) -> bool {
    s.len() == 32 && forall|i: int| 0 <= i < s.len() ==> 'a' <= #[trigger] s[i] <= 'p'
}

/// Whether `value` is a Chrome extension id.
pub fn is_extension_id(value: &str) -> (r: bool)
    ensures
        r == extension_id_ok(value@),
{
    let v = to_chars(value);
    if v.len() != 32 {
        return false;
    }
    let mut i: usize = 0;
    while i < v.len()
        invariant
            i <= v.len(),
            v@ == value@,
            forall|k: int| 0 <= k < i ==> 'a' <= #[trigger] v@[k] <= 'p',
        decreases v.len() - i,
    {
        if !('a' <= v[i] && v[i] <= 'p') {
            return false;
        }
        i = i + 1;
    }
    true
}

/// The extension id an argument names, when it is a `chrome-extension://` origin.
pub open spec fn extension_id_of_arg(arg: Seq<char>) -> Option<Seq<char>> {
    if starts_with(arg, "chrome-extension://"@) {
        let id = before_first(arg.skip(19), '/');
        if extension_id_ok(id) {
            Some(id)
        } else {
            None
        }
    } else {
        None
    }
}

/// The first argument that names an extension id, and that id.
pub open spec fn extension_id_in(args: Seq<Seq<char>>) -> Option<Seq<char>>
    decreases args.len(),
{
    if args.len() == 0 {
        None
    } else {
        match extension_id_of_arg(args[0]) {
            Some(id) => Some(id),
            None => extension_id_in(args.drop_first()),
        }
    }
}

/// The extension id the host was started for: Chrome passes the caller's origin,
/// `chrome-extension://<id>/`, among the arguments after the program name.
pub fn extension_id_from_args(args: &[String]) -> (r: Option<String>)
    ensures
        match r {
            Some(id) => extension_id_in(args@.map_values(|a: String| a@)) == Some(id@),
            None => extension_id_in(args@.map_values(|a: String| a@)) is None,
        },
{
    let ghost all = args@.map_values(|a: String| a@);
    let prefix = to_chars("chrome-extension://");
    proof {
        reveal_strlit("chrome-extension://");
    }
    let mut i: usize = 0;
    assert(all.skip(0) =~= all);
    while i < args.len()
        invariant
            i <= args.len(),
            all == args@.map_values(|a: String| a@),
            prefix@ == "chrome-extension://"@,
            prefix@.len() == 19,
            extension_id_in(all.skip(i as int)) == extension_id_in(all),
        decreases args.len() - i,
    {
        let arg = to_chars(args[i].as_str());
        assert(all.skip(i as int)[0] == arg@);
        assert(all.skip(i as int).drop_first() =~= all.skip(i + 1));
        if chars_starts_with(arg.as_slice(), prefix.as_slice()) {
            let rest = slice_range(arg.as_slice(), 19, arg.len());
            assert(rest@ =~= arg@.skip(19));
            let id = before_first_char(rest.as_slice(), '/');
            let s = string_from_chars(id.as_slice());
            if is_extension_id(s.as_str()) {
                return Some(s);
            }
        }
        i = i + 1;
    }
    assert(all.skip(i as int).len() == 0);
    None
}

/// The characters kept in an asset's file name; the others become `_`.
pub open spec fn asset_name_char(c: char) -> char {
    if ('a' <= c <= 'z') || ('A' <= c <= 'Z') || ('0' <= c <= '9') || c == '.' || c == '-' || c
        == '_' {
        c
    } else {
        '_'
    }
}

/// The file name an asset is stored under: the last component of the name the
/// extension gave, at most 160 characters, with unusual characters replaced;
/// `asset.bin` when nothing usable is left.
pub open spec fn sanitized_asset_name(name: Seq<char>) -> Seq<char> {
    let base = match file_name(name) {
        Some(n) => n,
        None => "asset.bin"@,
    };
    let kept = base.take(if base.len() < 160 { base.len() as int } else { 160 });
    let mapped = kept.map_values(|c: char| asset_name_char(c));
    if mapped.len() == 0 || mapped == "."@ || mapped == ".."@ {
        "asset.bin"@
    } else {
        mapped
    }
}

fn sanitize_char(c: char) -> (r: char)
    ensures
        r == asset_name_char(c),
{
    if ('a' <= c && c <= 'z') || ('A' <= c && c <= 'Z') || ('0' <= c && c <= '9') || c == '.' || c
        == '-' || c == '_' {
        c
    } else {
        '_'
    }
}

/// The file name an asset is stored under.
pub fn sanitize_asset_file_name(file_name: &str) -> (r: String)
    ensures
        r@ == sanitized_asset_name(file_name@),
{
    let chars = to_chars(file_name);
    let base = match path_file_name(chars.as_slice()) {
        Some(n) => n,
        None => to_chars("asset.bin"),
    };
    let n = if base.len() < 160 {
        base.len()
    } else {
        160
    };
    let mut out: Vec<char> = Vec::new();
    let mut i: usize = 0;
    while i < n
        invariant
            i <= n <= base.len(),
            out@ == base@.take(i as int).map_values(|c: char| asset_name_char(c)),
        decreases n - i,
    {
        out.push(sanitize_char(base[i]));
        assert(base@.take(i + 1).map_values(|c: char| asset_name_char(c)) =~= base@.take(
            i as int,
        ).map_values(|c: char| asset_name_char(c)).push(asset_name_char(base@[i as int])));
        i = i + 1;
    }
    let dot = to_chars(".");
    let dotdot = to_chars("..");
    if out.len() == 0 || crate::text::chars_eq(out.as_slice(), dot.as_slice()) || crate::text::chars_eq(
        out.as_slice(),
        dotdot.as_slice(),
    ) {
        String::from_str("asset.bin")
    } else {
        string_from_chars(out.as_slice())
    }
}

/// `root` joined with a relative file name, as `Path::join` does.
pub open spec fn join_path(root: Seq<char>, name: Seq<char>) -> Seq<char> {
    if root.len() == 0 {
        name
    } else if root.last() == '/' {
        root + name
    } else {
        root + "/"@ + name
    }
}

/// An asset id: `linux-<pid>-<n>`.
pub open spec fn asset_id_of(process_id: u32, n: u64) -> Seq<char> {
    "linux-"@ + decimal(process_id as nat) + "-"@ + decimal(n as nat)
}

/// A browser asset being written.
pub struct AssetRecord {
    pub path: String,
    pub written: u64,
    pub finalized: bool,
}

/// What the host knows of an asset.
pub struct AssetState {
    pub path: Seq<char>,
    pub written: u64,
    pub finalized: bool,
}

pub open spec fn asset_view(r: AssetRecord) -> AssetState {
    AssetState { path: r.path@, written: r.written, finalized: r.finalized }
}

/// The browser assets of the host, by id, and the counter new ids are made from.
pub struct AssetLedger {
    assets: PendingTable<AssetRecord>,
    next_asset_id: u64,
    process_id: u32,
}

/// The error every asset operation answers with, with its message.
pub open spec fn asset_error(message: Seq<char>) -> (Seq<char>, Seq<char>) {
    ("app_server_runtime_error"@, message)
}

pub open spec fn error_parts(e: RuntimeRequestError) -> (Seq<char>, Seq<char>) {
    (e.error_type@, e.message@)
}

/// How much an asset holds after appending `chunk_len` bytes, or why it may not.
pub open spec fn append_check(a: Option<AssetState>, id: Seq<char>, chunk_len: nat) -> Result<
    u64,
    (Seq<char>, Seq<char>),
> {
    match a {
        None => Err(asset_error("Unknown browser asset id: "@ + id)),
        Some(s) => if s.written + chunk_len > u64::MAX {
            Err(asset_error("Asset is too large"@))
        } else if s.written + chunk_len > MAX_TAB_CONTEXT_ASSET_BYTES {
            Err(asset_error("Browser asset exceeds the 256 MiB safety limit"@))
        } else if s.finalized {
            Err(asset_error("Browser asset is already finalized: "@ + id))
        } else {
            Ok((s.written + chunk_len) as u64)
        },
    }
}

fn runtime_error(message: String) -> (r: RuntimeRequestError)
    ensures
        error_parts(r) == asset_error(message@),
{
    RuntimeRequestError::new("app_server_runtime_error", message)
}

fn unknown_asset(id: &str) -> (r: RuntimeRequestError)
    ensures
        error_parts(r) == asset_error("Unknown browser asset id: "@ + id@),
{
    let mut m = to_chars("Unknown browser asset id: ");
    append_str(&mut m, id);
    runtime_error(string_from_chars(m.as_slice()))
}

impl AssetLedger {
    pub closed spec fn assets(&self) -> Map<Seq<char>, AssetState> {
        self.assets@.map_values(|r: AssetRecord| asset_view(r))
    }

    pub closed spec fn next_id(&self) -> u64 {
        self.next_asset_id
    }

    pub closed spec fn pid(&self) -> u32 {
        self.process_id
    }

    pub closed spec fn wf(&self) -> bool {
        self.assets.wf()
    }

    /// The number the next asset id is made from.
    pub fn next_asset_id(&self) -> (r: u64)
        ensures
            r == self.next_id(),
    {
        self.next_asset_id
    }

    /// No assets; ids start at 1.
    pub fn new(process_id: u32) -> (r: Self)
        ensures
            r.wf(),
            r.assets() == Map::<Seq<char>, AssetState>::empty(),
            r.next_id() == 1,
            r.pid() == process_id,
    {
        let r = AssetLedger { assets: PendingTable::new(), next_asset_id: 1, process_id };
        assert(r.assets() =~= Map::<Seq<char>, AssetState>::empty());
        r
    }

    /// Takes the next asset id and the path, under `root`, of the file the asset is
    /// written to: `<root>/<id>-<sanitized name>`.
    pub fn reserve(&mut self, root: &str, file_name: &str) -> (r: (String, String))
        requires
            old(self).wf(),
            old(self).next_id() < u64::MAX,
        ensures
            final(self).wf(),
            r.0@ == asset_id_of(old(self).pid(), old(self).next_id()),
            r.1@ == join_path(root@, r.0@ + "-"@ + sanitized_asset_name(file_name@)),
            final(self).next_id() == old(self).next_id() + 1,
            final(self).assets() == old(self).assets(),
            final(self).pid() == old(self).pid(),
    {
        let id = crate::router::request_key("linux-", self.process_id, self.next_asset_id);
        self.next_asset_id = self.next_asset_id + 1;
        let mut name = to_chars(id.as_str());
        append_str(&mut name, "-");
        let sanitized = sanitize_asset_file_name(file_name);
        append_str(&mut name, sanitized.as_str());
        let root_chars = to_chars(root);
        let mut path: Vec<char> = Vec::new();
        append_chars(&mut path, root_chars.as_slice());
        if root_chars.len() > 0 && root_chars[root_chars.len() - 1] != '/' {
            append_str(&mut path, "/");
        }
        append_chars(&mut path, name.as_slice());
        proof {
            if root@.len() == 0 {
                assert(path@ =~= name@);
            }
        }
        (id, string_from_chars(path.as_slice()))
    }

    /// Records a new, empty asset whose file was created at `path`.
    pub fn register(&mut self, id: String, path: String)
        requires
            old(self).wf(),
        ensures
            final(self).wf(),
            final(self).assets() == old(self).assets().insert(
                id@,
                AssetState { path: path@, written: 0, finalized: false },
            ),
            final(self).next_id() == old(self).next_id(),
            final(self).pid() == old(self).pid(),
    {
        let ghost k = id@;
        let ghost p = path@;
        self.assets.insert(id, AssetRecord { path, written: 0, finalized: false });
        assert(self.assets() =~= old(self).assets().insert(
            k,
            AssetState { path: p, written: 0, finalized: false },
        ));
    }

    /// Checks that `chunk_len` more bytes may be written to the asset `id`, and
    /// gives the size it will have then.
    pub fn check_append(&self, id: &str, chunk_len: usize) -> (r: Result<u64, RuntimeRequestError>)
        requires
            self.wf(),
        ensures
            match (r, append_check(
                if self.assets().dom().contains(id@) {
                    Some(self.assets()[id@])
                } else {
                    None
                },
                id@,
                chunk_len as nat,
            )) {
                (Ok(n), Ok(m)) => n == m,
                (Err(e), Err(p)) => error_parts(e) == p,
                _ => false,
            },
    {
        let a = match self.assets.get(id) {
            Some(a) => a,
            None => return Err(unknown_asset(id)),
        };
        if chunk_len as u128 + a.written as u128 > u64::MAX as u128 {
            return Err(runtime_error(String::from_str("Asset is too large")));
        }
        let new_size = a.written + chunk_len as u64;
        if new_size > MAX_TAB_CONTEXT_ASSET_BYTES {
            return Err(runtime_error(String::from_str("Browser asset exceeds the 256 MiB safety limit")));
        }
        if a.finalized {
            let mut m = to_chars("Browser asset is already finalized: ");
            append_str(&mut m, id);
            return Err(runtime_error(string_from_chars(m.as_slice())));
        }
        Ok(new_size)
    }

    /// Records that the asset `id` now holds `written` bytes.
    pub fn record_written(&mut self, id: &str, written: u64)
        requires
            old(self).wf(),
        ensures
            final(self).wf(),
            final(self).assets() == if old(self).assets().dom().contains(id@) {
                old(self).assets().insert(
                    id@,
                    AssetState { written, ..old(self).assets()[id@] },
                )
            } else {
                old(self).assets()
            },
            final(self).next_id() == old(self).next_id(),
            final(self).pid() == old(self).pid(),
    {
        if let Some(a) = self.assets.remove(id) {
            let key = String::from_str(id);
            let ghost p = a.path@;
            let ghost f = a.finalized;
            self.assets.insert(key, AssetRecord { path: a.path, written, finalized: a.finalized });
            assert(self.assets() =~= old(self).assets().insert(
                id@,
                AssetState { path: p, written, finalized: f },
            ));
        } else {
            assert(self.assets() =~= old(self).assets());
        }
    }

    /// Finalizes the asset `id`: its path, and whether it was still open (its file
    /// then wants flushing).
    pub fn finish(&mut self, id: &str) -> (r: Result<(String, bool), RuntimeRequestError>)
        requires
            old(self).wf(),
        ensures
            final(self).wf(),
            final(self).next_id() == old(self).next_id(),
            final(self).pid() == old(self).pid(),
            match r {
                Ok((path, was_open)) => old(self).assets().dom().contains(id@) && path@ == old(
                    self,
                ).assets()[id@].path && was_open == !old(self).assets()[id@].finalized
                    && final(self).assets() == old(self).assets().insert(
                    id@,
                    AssetState { finalized: true, ..old(self).assets()[id@] },
                ),
                Err(e) => !old(self).assets().dom().contains(id@) && error_parts(e) == asset_error(
                    "Unknown browser asset id: "@ + id@,
                ) && final(self).assets() == old(self).assets(),
            },
    {
        match self.assets.remove(id) {
            None => {
                assert(self.assets() =~= old(self).assets());
                Err(unknown_asset(id))
            },
            Some(a) => {
                let was_open = !a.finalized;
                let path = a.path.clone();
                let ghost p = a.path@;
                let ghost w = a.written;
                let key = String::from_str(id);
                self.assets.insert(key, AssetRecord { path: a.path, written: a.written, finalized: true });
                assert(self.assets() =~= old(self).assets().insert(
                    id@,
                    AssetState { path: p, written: w, finalized: true },
                ));
                Ok((path, was_open))
            },
        }
    }

    /// Forgets the asset `id`, giving back its path when there was one.
    pub fn remove(&mut self, id: &str) -> (r: Option<String>)
        requires
            old(self).wf(),
        ensures
            final(self).wf(),
            final(self).assets() == old(self).assets().remove(id@),
            final(self).next_id() == old(self).next_id(),
            final(self).pid() == old(self).pid(),
            match r {
                Some(p) => old(self).assets().dom().contains(id@) && p@ == old(self).assets()[id@].path,
                None => !old(self).assets().dom().contains(id@),
            },
    {
        let r = self.assets.remove(id);
        assert(self.assets() =~= old(self).assets().remove(id@));
        match r {
            Some(a) => Some(a.path),
            None => None,
        }
    }

    /// Forgets every asset.
    pub fn clear(&mut self)
        requires
            old(self).wf(),
        ensures
            final(self).wf(),
            final(self).assets() == Map::<Seq<char>, AssetState>::empty(),
            final(self).next_id() == old(self).next_id(),
            final(self).pid() == old(self).pid(),
    {
        self.assets.clear();
        assert(self.assets() =~= Map::<Seq<char>, AssetState>::empty());
    }
}

/// What the `STANDARD` engine of the `base64` crate decodes a text to: the bytes, or
/// the text of its decode error.
pub uninterp spec fn base64_decoded(text: Seq<char>) -> Result<Seq<u8>, Seq<char>>;

/// `Engine::decode` of `base64::engine::general_purpose::STANDARD`; its result, with
/// the error written as text, is named `base64_decoded`.
#[verifier::external_body]
fn decode_standard_base64(text: &str) -> (r: Result<Vec<u8>, String>)
    ensures
        match r {
            Ok(b) => base64_decoded(text@) == Ok::<Seq<u8>, Seq<char>>(b@),
            Err(e) => base64_decoded(text@) == Err::<Seq<u8>, Seq<char>>(e@),
        },
{
    match base64::engine::general_purpose::STANDARD.decode(text) {
        Ok(bytes) => Ok(bytes),
        Err(error) => Err(error.to_string()),
    }
}

/// The bytes of a base64 asset chunk.
pub fn decode_asset_chunk(data_base64: &str) -> (r: Result<Vec<u8>, RuntimeRequestError>)
    ensures
        match base64_decoded(data_base64@) {
            Ok(b) => r matches Ok(v) && v@ == b,
            Err(m) => r matches Err(e) && error_parts(e) == asset_error(
                "Invalid base64 browser asset chunk: "@ + m,
            ),
        },
{
    match decode_standard_base64(data_base64) {
        Ok(bytes) => Ok(bytes),
        Err(m) => {
            let mut v = to_chars("Invalid base64 browser asset chunk: ");
            append_str(&mut v, m.as_str());
            Err(runtime_error(string_from_chars(v.as_slice())))
        },
    }
}

/// An asset's file name never leaves the asset directory: it is not empty, holds no
/// `/`, and is neither `.` nor `..`.
pub proof fn law_asset_names_stay_in_their_directory(name: Seq<char>)
    ensures
        sanitized_asset_name(name).len() > 0,
        forall|i: int| 0 <= i < sanitized_asset_name(name).len() ==> sanitized_asset_name(name)[i]
            != '/',
        sanitized_asset_name(name) != "."@,
        sanitized_asset_name(name) != ".."@,
{
    reveal_strlit("asset.bin");
    reveal_strlit(".");
    reveal_strlit("..");
    let s = sanitized_asset_name(name);
    assert forall|i: int| 0 <= i < s.len() implies s[i] != '/' by {
        if s != "asset.bin"@ {
            let base = match file_name(name) {
                Some(n) => n,
                None => "asset.bin"@,
            };
            let kept = base.take(if base.len() < 160 { base.len() as int } else { 160 });
            assert(s == kept.map_values(|c: char| asset_name_char(c)));
            assert(s[i] == asset_name_char(kept[i]));
        }
    }
}

/// The extension id found among the arguments is a valid extension id.
pub proof fn law_found_extension_id_is_valid(args: Seq<Seq<char>>)
    ensures
        extension_id_in(args) matches Some(id) ==> extension_id_ok(id),
    decreases args.len(),
{
    if args.len() > 0 {
        law_found_extension_id_is_valid(args.drop_first());
    }
}

/// A finalized asset takes no more data, and an asset never grows past 256 MiB: a
/// chunk that would take it past the limit is refused with the safety-limit error
/// (a size past `u64::MAX` is refused as too large first), and an accepted chunk
/// leaves the asset holding exactly its old size plus the chunk. So when every
/// asset is within the limit, it still is after an accepted append is recorded.
pub proof fn law_asset_appends_are_bounded(
    assets: Map<Seq<char>, AssetState>,
    a: AssetState,
    id: Seq<char>,
    chunk_len: nat,
)
    requires
        forall|k: Seq<char>| #[trigger] assets.dom().contains(k) ==> assets[k].written
            <= MAX_TAB_CONTEXT_ASSET_BYTES,
    ensures
        a.finalized ==> append_check(Some(a), id, chunk_len) is Err,
        MAX_TAB_CONTEXT_ASSET_BYTES < a.written + chunk_len <= u64::MAX ==> append_check(
            Some(a),
            id,
            chunk_len,
        ) == Err::<u64, (Seq<char>, Seq<char>)>(asset_error("Browser asset exceeds the 256 MiB safety limit"@)),
        append_check(Some(a), id, chunk_len) matches Ok(n) ==> n <= MAX_TAB_CONTEXT_ASSET_BYTES && n
            == a.written + chunk_len,
        append_check(Some(a), id, chunk_len) matches Ok(n) ==> forall|k: Seq<char>|
            #[trigger] assets.insert(id, AssetState { written: n, ..a }).dom().contains(k) ==> assets.insert(
                id,
                AssetState { written: n, ..a },
            )[k].written <= MAX_TAB_CONTEXT_ASSET_BYTES,
{
}

} // verus!
