//! The WebSocket handshake that the app-server proxy forwards: it is checked, and the
//! browser `Origin` header is removed once it has been matched against the
//! connected extension.
use vstd::prelude::*;
use vstd::utf8::*;
use crate::installed::from_utf8;
use crate::pattern::{find_bytes, find_pat, lemma_find_pat, lemma_find_pat_exact, occurs_at};
use crate::text::{append_chars, char_pred, chars_eq, chars_eq_ignore_ascii_case, chars_starts_with, eq_ignore_ascii_case, find_char, lemma_find_by, slice_range, split_char, split_on, split_once, split_ws, starts_with, str_eq_chars, string_from_chars, to_chars, trim, trim_chars, views, ws_tokens};

verus! {

pub open spec fn crlf() -> Seq<char> {
    seq!['\r', '\n']
}

pub open spec fn header_terminator() -> Seq<u8> {
    seq![13u8, 10u8, 13u8, 10u8]
}

/// The end of the HTTP header block: just after the first blank line (`\r\n\r\n`).
pub open spec fn header_end(request: Seq<u8>) -> Option<int> {
    let i = find_pat(request, header_terminator());
    if i < 0 {
        None
    } else {
        Some(i + 4)
    }
}

/// Finds the end of the HTTP header block in a request.
pub fn proxy_http_header_end(request: &[u8]) -> (r: Option<usize>)
    ensures
        match r {
            Some(e) => header_end(request@) == Some(e as int),
            None => header_end(request@) is None,
        },
{
    let pat: [u8; 4] = [13u8, 10u8, 13u8, 10u8];
    assert(pat@ =~= header_terminator());
    let n = request.len();
    let found = find_bytes(request, &pat);
    proof {
        lemma_find_pat(request@, header_terminator());
    }
    match found {
        Some(i) => {
            assert(i + 4 <= n);
            Some(i + 4)
        },
        None => None,
    }
}

/// `s.split("\r\n")`.
pub open spec fn split_crlf(s: Seq<char>) -> Seq<Seq<char>>
    decreases s.len(),
{
    let i = find_pat(s, crlf());
    if i < 0 {
        seq![s]
    } else {
        proof {
            lemma_find_pat(s, crlf());
        }
        seq![s.take(i)] + split_crlf(s.skip(i + 2))
    }
}

/// `split("\r\n")` on characters.
pub fn split_crlf_chars(v: &[char]) -> (r: Vec<Vec<char>>)
    ensures
        views(r@) == split_crlf(v@),
{
    let mut r: Vec<Vec<char>> = Vec::new();
    let mut start: usize = 0;
    let mut i: usize = 0;
    assert(v@.skip(0) =~= v@);
    while v.len() > 1 && i < v.len() - 1
        invariant
            start <= i <= v.len(),
            views(r@) + split_crlf(v@.skip(start as int)) == split_crlf(v@),
            forall|k: int| 0 <= k < i - start ==> !#[trigger] occurs_at(v@.skip(start as int), crlf(), k),
        decreases v.len() - i,
    {
        let ghost s = v@.skip(start as int);
        if v[i] == '\r' && v[i + 1] == '\n' {
            let piece = slice_range(v, start, i);
            proof {
                assert(s.subrange(i - start, i - start + 2) =~= crlf());
                lemma_find_pat_exact(s, crlf(), i - start);
                assert(s.take(i - start) =~= piece@);
                assert(s.skip(i - start + 2) =~= v@.skip(i + 2));
                assert(views(r@.push(piece)) =~= views(r@).push(piece@));
                assert(views(r@).push(piece@) + split_crlf(v@.skip(i + 2)) =~= views(r@) + (
                seq![piece@] + split_crlf(v@.skip(i + 2))));
            }
            r.push(piece);
            i = i + 2;
            start = i;
        } else {
            proof {
                assert forall|k: int| 0 <= k < i + 1 - start implies !#[trigger] occurs_at(
                    s,
                    crlf(),
                    k,
                ) by {
                    if k == i - start && k + 2 <= s.len() {
                        let w = s.subrange(k, k + 2);
                        assert(w[0] == v@[i as int] && w[1] == v@[i + 1]);
                    }
                }
            }
            i = i + 1;
        }
    }
    let ghost s = v@.skip(start as int);
    let piece = slice_range(v, start, v.len());
    proof {
        lemma_find_pat_exact(s, crlf(), i - start);
        assert(s =~= piece@);
        assert(views(r@.push(piece)) =~= views(r@).push(piece@));
        assert(views(r@) + seq![piece@] =~= views(r@).push(piece@));
    }
    r.push(piece);
    r
}

/// Whether one of the comma-separated items of a header value is `expected`,
/// ignoring surrounding whitespace and ASCII case.
pub open spec fn has_token(value: Seq<char>, expected: Seq<char>) -> bool {
    exists|k: int|
        0 <= k < split_on(value, ',').len() && eq_ignore_ascii_case(
            trim(#[trigger] split_on(value, ',')[k]),
            expected,
        )
}

/// Whether a comma-separated header value lists `expected`.
pub fn header_has_token(value: &str, expected: &str) -> (r: bool)
    ensures
        r == has_token(value@, expected@),
{
    let v = to_chars(value);
    let e = to_chars(expected);
    let items = split_char(v.as_slice(), ',');
    let ghost iv = views(items@);
    let mut k: usize = 0;
    while k < items.len()
        invariant
            k <= items.len(),
            iv == views(items@),
            iv == split_on(value@, ','),
            e@ == expected@,
            forall|m: int| 0 <= m < k ==> !eq_ignore_ascii_case(trim(#[trigger] iv[m]), expected@),
        decreases items.len() - k,
    {
        let t = trim_chars(items[k].as_slice());
        if chars_eq_ignore_ascii_case(t.as_slice(), e.as_slice()) {
            assert(iv[k as int] == items@[k as int]@);
            return true;
        }
        k = k + 1;
    }
    false
}

/// The request line of a WebSocket upgrade: exactly `GET <path starting with /> HTTP/1.1`.
pub open spec fn valid_request_line(line: Seq<char>) -> bool {
    let t = ws_tokens(line);
    t.len() == 3 && t[0] == "GET"@ && starts_with(t[1], "/"@) && t[2] == "HTTP/1.1"@
}

/// What the header scan has produced so far: the forwarded header text and which
/// of the required handshake headers have been seen.
pub struct ScanState {
    pub out: Seq<char>,
    pub connection_upgrade: bool,
    pub host: bool,
    pub origin: bool,
    pub websocket_key: bool,
    pub websocket_upgrade: bool,
}

pub open spec fn err_folded() -> Seq<char> {
    "folded app-server proxy HTTP headers are not supported"@
}

pub open spec fn err_malformed() -> Seq<char> {
    "malformed app-server proxy HTTP header"@
}

pub open spec fn err_malformed_name() -> Seq<char> {
    "malformed app-server proxy HTTP header name"@
}

pub open spec fn err_duplicate_origin() -> Seq<char> {
    "duplicate app-server proxy Origin header"@
}

pub open spec fn err_origin_without_extension() -> Seq<char> {
    "app-server proxy cannot accept a browser Origin without an extension id"@
}

pub open spec fn err_foreign_origin() -> Seq<char> {
    "app-server proxy Origin is not the connected extension"@
}

pub open spec fn err_no_terminator() -> Seq<char> {
    "app-server proxy request is missing the HTTP header terminator"@
}

pub open spec fn err_not_utf8() -> Seq<char> {
    "app-server proxy HTTP headers are not valid UTF-8"@
}

pub open spec fn err_request_line() -> Seq<char> {
    "invalid app-server proxy WebSocket request line"@
}

pub open spec fn err_incomplete() -> Seq<char> {
    "incomplete app-server proxy WebSocket handshake"@
}

/// One header line: blank lines are skipped; folded, nameless or malformed lines are
/// refused; a single `Origin` equal to the allowed origin is consumed; every other
/// header is forwarded, and the handshake headers are recorded (the last one of a
/// name wins).
pub open spec fn scan_line(st: ScanState, line: Seq<char>, allowed: Option<Seq<char>>) -> Result<
    ScanState,
    Seq<char>,
> {
    if line.len() == 0 {
        Ok(st)
    } else if line[0] == ' ' || line[0] == '\t' {
        Err(err_folded())
    } else {
        match split_once(line, ':') {
            None => Err(err_malformed()),
            Some((name, raw_value)) => {
                let value = trim(raw_value);
                if name.len() == 0 || name != trim(name) {
                    Err(err_malformed_name())
                } else if eq_ignore_ascii_case(name, "Origin"@) {
                    if st.origin {
                        Err(err_duplicate_origin())
                    } else {
                        match allowed {
                            None => Err(err_origin_without_extension()),
                            Some(expected) => if value != expected {
                                Err(err_foreign_origin())
                            } else {
                                Ok(ScanState { origin: true, ..st })
                            },
                        }
                    }
                } else {
                    let st2 = if eq_ignore_ascii_case(name, "Connection"@) {
                        ScanState { connection_upgrade: has_token(value, "upgrade"@), ..st }
                    } else if eq_ignore_ascii_case(name, "Host"@) {
                        ScanState { host: value.len() > 0, ..st }
                    } else if eq_ignore_ascii_case(name, "Sec-WebSocket-Key"@) {
                        ScanState { websocket_key: value.len() > 0, ..st }
                    } else if eq_ignore_ascii_case(name, "Upgrade"@) {
                        ScanState { websocket_upgrade: eq_ignore_ascii_case(value, "websocket"@), ..st }
                    } else {
                        st
                    };
                    Ok(ScanState { out: st2.out + line + crlf(), ..st2 })
                }
            },
        }
    }
}

/// The scan over all header lines, stopping at the first refused line.
pub open spec fn scan_lines(lines: Seq<Seq<char>>, st: ScanState, allowed: Option<Seq<char>>) -> Result<
    ScanState,
    Seq<char>,
>
    decreases lines.len(),
{
    if lines.len() == 0 {
        Ok(st)
    } else {
        match scan_line(st, lines[0], allowed) {
            Err(e) => Err(e),
            Ok(st2) => scan_lines(lines.drop_first(), st2, allowed),
        }
    }
}

/// The end of the scan: refused when a required handshake header is missing,
/// otherwise the scanned header text, the blank line and `tail`.
pub open spec fn finish_scan(scan: Result<ScanState, Seq<char>>, tail: Seq<u8>) -> Result<
    Seq<u8>,
    Seq<char>,
> {
    match scan {
        Err(e) => Err(e),
        Ok(st) => if !(st.connection_upgrade && st.host && st.websocket_key
            && st.websocket_upgrade) {
            Err(err_incomplete())
        } else {
            Ok(encode_utf8(st.out + crlf()) + tail)
        },
    }
}

/// The forwarded handshake: the request line, every header but the matched
/// `Origin`, the blank line, and then the bytes that followed the headers, untouched.
/// Refused when the headers are not terminated, not UTF-8, the request line is not a
/// `GET ... HTTP/1.1`, a header line is refused, or one of `Connection: upgrade`,
/// `Host`, `Sec-WebSocket-Key` and `Upgrade: websocket` is missing.
pub open spec fn rewritten_handshake(request: Seq<u8>, allowed: Option<Seq<char>>) -> Result<
    Seq<u8>,
    Seq<char>,
> {
    match header_end(request) {
        None => Err(err_no_terminator()),
        Some(end) => if !valid_utf8(request.take(end)) {
            Err(err_not_utf8())
        } else {
            let lines = split_crlf(decode_utf8(request.take(end)));
            let request_line = lines[0];
            if !valid_request_line(request_line) {
                Err(err_request_line())
            } else {
                let start = ScanState {
                    out: request_line + crlf(),
                    connection_upgrade: false,
                    host: false,
                    origin: false,
                    websocket_key: false,
                    websocket_upgrade: false,
                };
                finish_scan(scan_lines(lines.drop_first(), start, allowed), request.skip(end))
            }
        },
    }
}

proof fn lemma_split_crlf_nonempty(s: Seq<char>)
    ensures
        split_crlf(s).len() >= 1,
    decreases s.len(),
{
    let i = find_pat(s, crlf());
    if i >= 0 {
        lemma_find_pat(s, crlf());
        lemma_split_crlf_nonempty(s.skip(i + 2));
    }
}

fn error(msg: &str) -> (r: String)
    ensures
        r@ == msg@,
{
    String::from_str(msg)
}

/// Checks a WebSocket upgrade request and removes its `Origin` header once it has been
/// matched against `allowed_origin`.
pub fn rewrite_proxy_websocket_handshake(request: &[u8], allowed_origin: Option<&str>) -> (r:
    Result<Vec<u8>, String>)
    ensures
        match r {
            Ok(bytes) => rewritten_handshake(
                request@,
                match allowed_origin {
                    Some(o) => Some(o@),
                    None => None,
                },
            ) == Ok::<Seq<u8>, Seq<char>>(bytes@),
            Err(e) => rewritten_handshake(
                request@,
                match allowed_origin {
                    Some(o) => Some(o@),
                    None => None,
                },
            ) == Err::<Seq<u8>, Seq<char>>(e@),
        },
{
    let ghost allowed = match allowed_origin {
        Some(o) => Some(o@),
        None => None,
    };
    let header_end_pos = match proxy_http_header_end(request) {
        Some(e) => e,
        None => {
            return Err(error("app-server proxy request is missing the HTTP header terminator"));
        },
    };
    proof {
        lemma_find_pat(request@, header_terminator());
    }
    let mut head: Vec<u8> = Vec::new();
    let mut k: usize = 0;
    while k < header_end_pos
        invariant
            k <= header_end_pos <= request.len(),
            head@ == request@.take(k as int),
        decreases header_end_pos - k,
    {
        head.push(request[k]);
        assert(request@.take(k + 1) =~= request@.take(k as int).push(request@[k as int]));
        k = k + 1;
    }
    let header_text = match from_utf8(head) {
        Some(t) => t,
        None => {
            return Err(error("app-server proxy HTTP headers are not valid UTF-8"));
        },
    };
    let text = to_chars(header_text.as_str());
    let lines = split_crlf_chars(text.as_slice());
    let ghost lv = views(lines@);
    proof {
        lemma_split_crlf_nonempty(text@);
    }
    let request_line = &lines[0];
    assert(lv[0] == request_line@);
    let tokens = split_ws(request_line.as_slice());
    let get = to_chars("GET");
    let slash = to_chars("/");
    let http11 = to_chars("HTTP/1.1");
    if !(tokens.len() == 3 && chars_eq(tokens[0].as_slice(), get.as_slice()) && chars_starts_with(
        tokens[1].as_slice(),
        slash.as_slice(),
    ) && chars_eq(tokens[2].as_slice(), http11.as_slice())) {
        proof {
            if views(tokens@).len() == 3 {
                assert(views(tokens@)[0] == tokens@[0]@);
                assert(views(tokens@)[1] == tokens@[1]@);
                assert(views(tokens@)[2] == tokens@[2]@);
            }
        }
        return Err(error("invalid app-server proxy WebSocket request line"));
    }
    proof {
        assert(views(tokens@)[0] == tokens@[0]@);
        assert(views(tokens@)[1] == tokens@[1]@);
        assert(views(tokens@)[2] == tokens@[2]@);
    }
    let mut out: Vec<char> = request_line.clone();
    out.push('\r');
    out.push('\n');
    let ghost start = ScanState {
        out: request_line@ + crlf(),
        connection_upgrade: false,
        host: false,
        origin: false,
        websocket_key: false,
        websocket_upgrade: false,
    };
    assert(out@ =~= start.out);
    let mut saw_connection_upgrade = false;
    let mut saw_host = false;
    let mut saw_origin = false;
    let mut saw_websocket_key = false;
    let mut saw_websocket_upgrade = false;
    let ghost rest = lv.drop_first();
    let mut li: usize = 1;
    assert(lv.skip(1) =~= rest);
    assert(rewritten_handshake(request@, allowed) == finish_scan(
        scan_lines(rest, start, allowed),
        request@.skip(header_end_pos as int),
    ));
    while li < lines.len()
        invariant
            1 <= li <= lines.len(),
            header_end_pos <= request.len(),
            rewritten_handshake(request@, allowed) == finish_scan(
                scan_lines(rest, start, allowed),
                request@.skip(header_end_pos as int),
            ),
            lv == views(lines@),
            rest == lv.drop_first(),
            allowed == (match allowed_origin {
                Some(o) => Some(o@),
                None => None::<Seq<char>>,
            }),
            scan_lines(rest, start, allowed) == scan_lines(
                lv.skip(li as int),
                ScanState {
                    out: out@,
                    connection_upgrade: saw_connection_upgrade,
                    host: saw_host,
                    origin: saw_origin,
                    websocket_key: saw_websocket_key,
                    websocket_upgrade: saw_websocket_upgrade,
                },
                allowed,
            ),
        decreases lines.len() - li,
    {
        let ghost st = ScanState {
            out: out@,
            connection_upgrade: saw_connection_upgrade,
            host: saw_host,
            origin: saw_origin,
            websocket_key: saw_websocket_key,
            websocket_upgrade: saw_websocket_upgrade,
        };
        let line = &lines[li];
        let ghost lrest = lv.skip(li as int);
        assert(lrest[0] == line@);
        assert(lrest.drop_first() =~= lv.skip(li + 1));
        if line.len() == 0 {
            li = li + 1;
            continue;
        }
        if line[0] == ' ' || line[0] == '\t' {
            return Err(error("folded app-server proxy HTTP headers are not supported"));
        }
        let colon = find_char(line.as_slice(), ':');
        if colon == line.len() {
            return Err(error("malformed app-server proxy HTTP header"));
        }
        proof {
            lemma_find_by(line@, char_pred(':'));
        }
        let name = slice_range(line.as_slice(), 0, colon);
        let raw_value = slice_range(line.as_slice(), colon + 1, line.len());
        assert(name@ =~= line@.take(colon as int));
        assert(raw_value@ =~= line@.skip(colon + 1));
        let value = trim_chars(raw_value.as_slice());
        let trimmed_name = trim_chars(name.as_slice());
        if name.len() == 0 || !chars_eq(name.as_slice(), trimmed_name.as_slice()) {
            return Err(error("malformed app-server proxy HTTP header name"));
        }
        let origin_name = to_chars("Origin");
        if chars_eq_ignore_ascii_case(name.as_slice(), origin_name.as_slice()) {
            if saw_origin {
                return Err(error("duplicate app-server proxy Origin header"));
            }
            saw_origin = true;
            match allowed_origin {
                None => {
                    return Err(
                        error("app-server proxy cannot accept a browser Origin without an extension id"),
                    );
                },
                Some(o) => {
                    if !str_eq_chars(o, value.as_slice()) {
                        return Err(error("app-server proxy Origin is not the connected extension"));
                    }
                },
            }
            li = li + 1;
            continue;
        }
        let connection_name = to_chars("Connection");
        let host_name = to_chars("Host");
        let key_name = to_chars("Sec-WebSocket-Key");
        let upgrade_name = to_chars("Upgrade");
        if chars_eq_ignore_ascii_case(name.as_slice(), connection_name.as_slice()) {
            let value_str = string_from_chars(value.as_slice());
            saw_connection_upgrade = header_has_token(value_str.as_str(), "upgrade");
        } else if chars_eq_ignore_ascii_case(name.as_slice(), host_name.as_slice()) {
            saw_host = value.len() > 0;
        } else if chars_eq_ignore_ascii_case(name.as_slice(), key_name.as_slice()) {
            saw_websocket_key = value.len() > 0;
        } else if chars_eq_ignore_ascii_case(name.as_slice(), upgrade_name.as_slice()) {
            let websocket = to_chars("websocket");
            saw_websocket_upgrade = chars_eq_ignore_ascii_case(value.as_slice(), websocket.as_slice());
        }
        append_chars(&mut out, line.as_slice());
        out.push('\r');
        out.push('\n');
        proof {
            assert(out@ =~= st.out + line@ + crlf());
        }
        li = li + 1;
    }
    assert(lv.skip(lines.len() as int) =~= Seq::<Seq<char>>::empty());
    if !(saw_connection_upgrade && saw_host && saw_websocket_key && saw_websocket_upgrade) {
        return Err(error("incomplete app-server proxy WebSocket handshake"));
    }
    let ghost scanned = ScanState {
        out: out@,
        connection_upgrade: saw_connection_upgrade,
        host: saw_host,
        origin: saw_origin,
        websocket_key: saw_websocket_key,
        websocket_upgrade: saw_websocket_upgrade,
    };
    assert(scan_lines(rest, start, allowed) == Ok::<ScanState, Seq<char>>(scanned));
    out.push('\r');
    out.push('\n');
    assert(out@ =~= scanned.out + crlf());
    let header_out = string_from_chars(out.as_slice());
    let mut bytes = header_out.as_str().as_bytes_vec();
    let mut t = header_end_pos;
    let ghost head_bytes = bytes@;
    assert(head_bytes == encode_utf8(scanned.out + crlf()));
    while t < request.len()
        invariant
            header_end_pos <= t <= request.len(),
            bytes@ == head_bytes + request@.subrange(header_end_pos as int, t as int),
        decreases request.len() - t,
    {
        bytes.push(request[t]);
        assert(request@.subrange(header_end_pos as int, t + 1) =~= request@.subrange(
            header_end_pos as int,
            t as int,
        ).push(request@[t as int]));
        t = t + 1;
    }
    assert(request@.subrange(header_end_pos as int, request.len() as int) =~= request@.skip(
        header_end_pos as int,
    ));
    Ok(bytes)
}

/// The most header bytes the app-server proxy reads: 64 KiB.
pub const APP_SERVER_PROXY_MAX_HEADER_BYTES: usize = 65536;

/// How far reading a proxied request's headers has come: `Ok(true)` when the
/// header block is complete, `Ok(false)` when more bytes are needed, and an error
/// when the headers pass 64 KiB.
pub open spec fn header_progress(request: Seq<u8>) -> Result<bool, Seq<char>> {
    match header_end(request) {
        Some(e) => if e > 65536 {
            Err("app-server proxy HTTP headers exceeded 64KiB"@)
        } else {
            Ok(true)
        },
        None => if request.len() >= 65536 {
            Err("app-server proxy HTTP headers exceeded 64KiB"@)
        } else {
            Ok(false)
        },
    }
}

/// Judges the bytes of a proxied request read so far.
pub fn proxy_headers_complete(request: &[u8]) -> (r: Result<bool, String>)
    ensures
        match (r, header_progress(request@)) {
            (Ok(a), Ok(b)) => a == b,
            (Err(e), Err(m)) => e@ == m,
            _ => false,
        },
{
    match proxy_http_header_end(request) {
        Some(e) => {
            if e > APP_SERVER_PROXY_MAX_HEADER_BYTES {
                Err(String::from_str("app-server proxy HTTP headers exceeded 64KiB"))
            } else {
                Ok(true)
            }
        },
        None => {
            if request.len() >= APP_SERVER_PROXY_MAX_HEADER_BYTES {
                Err(String::from_str("app-server proxy HTTP headers exceeded 64KiB"))
            } else {
                Ok(false)
            }
        },
    }
}

/// The value of a header line that names `Origin`, trimmed.
pub open spec fn origin_value(line: Seq<char>) -> Option<Seq<char>> {
    if line.len() == 0 {
        None
    } else {
        match split_once(line, ':') {
            Some((name, raw)) => if eq_ignore_ascii_case(name, "Origin"@) {
                Some(trim(raw))
            } else {
                None
            },
            None => None,
        }
    }
}

/// The header lines that are forwarded, each ended by CRLF: every line but blank
/// lines and `Origin` lines, in order.
pub open spec fn forwarded_lines(lines: Seq<Seq<char>>) -> Seq<char>
    decreases lines.len(),
{
    if lines.len() == 0 {
        Seq::empty()
    } else {
        (if lines[0].len() > 0 && origin_value(lines[0]) is None {
            lines[0] + crlf()
        } else {
            Seq::empty()
        }) + forwarded_lines(lines.drop_first())
    }
}

proof fn lemma_scan_lines_forwards(lines: Seq<Seq<char>>, st: ScanState, allowed: Option<Seq<char>>)
    requires
        scan_lines(lines, st, allowed) is Ok,
    ensures
        scan_lines(lines, st, allowed)->Ok_0.out == st.out + forwarded_lines(lines),
        forall|i: int|
            0 <= i < lines.len() && #[trigger] origin_value(lines[i]) is Some ==> allowed == Some(
                origin_value(lines[i])->0,
            ),
    decreases lines.len(),
{
    if lines.len() == 0 {
        assert(st.out + forwarded_lines(lines) =~= st.out);
    } else {
        let st2 = scan_line(st, lines[0], allowed)->Ok_0;
        let rest = lines.drop_first();
        lemma_scan_lines_forwards(rest, st2, allowed);
        let head = if lines[0].len() > 0 && origin_value(lines[0]) is None {
            lines[0] + crlf()
        } else {
            Seq::empty()
        };
        assert(st2.out == st.out + head);
        assert(st.out + head + forwarded_lines(rest) =~= st.out + forwarded_lines(lines));
        assert forall|i: int|
            0 <= i < lines.len() && #[trigger] origin_value(lines[i]) is Some implies allowed == Some(
                origin_value(lines[i])->0,
            ) by {
            if i > 0 {
                assert(lines[i] == rest[i - 1]);
            }
        }
    }
}

/// The trimmed value of a header line named `name` (ignoring ASCII case).
pub open spec fn named_value(line: Seq<char>, name: Seq<char>) -> Option<Seq<char>> {
    if line.len() == 0 {
        None
    } else {
        match split_once(line, ':') {
            Some((n, raw)) => if eq_ignore_ascii_case(n, name) {
                Some(trim(raw))
            } else {
                None
            },
            None => None,
        }
    }
}

/// The trimmed value of the last header line named `name`, if any.
pub open spec fn last_value(lines: Seq<Seq<char>>, name: Seq<char>) -> Option<Seq<char>>
    decreases lines.len(),
{
    if lines.len() == 0 {
        None
    } else {
        match last_value(lines.drop_first(), name) {
            Some(v) => Some(v),
            None => named_value(lines[0], name),
        }
    }
}

/// How many header lines are `Origin` lines.
pub open spec fn origin_count(lines: Seq<Seq<char>>) -> nat
    decreases lines.len(),
{
    if lines.len() == 0 {
        0
    } else {
        (if origin_value(lines[0]) is Some {
            1nat
        } else {
            0nat
        }) + origin_count(lines.drop_first())
    }
}

/// A flag of the scan is the verdict on the last header of its name, or what it
/// was before the scan when no such header came.
pub open spec fn flag_after(before: bool, last: Option<Seq<char>>, verdict: spec_fn(Seq<char>) -> bool) -> bool {
    match last {
        Some(v) => verdict(v),
        None => before,
    }
}

proof fn lemma_header_names_differ(n: Seq<char>)
    ensures
        eq_ignore_ascii_case(n, "Origin"@) ==> n.len() == 6,
        eq_ignore_ascii_case(n, "Connection"@) ==> n.len() == 10,
        eq_ignore_ascii_case(n, "Host"@) ==> n.len() == 4,
        eq_ignore_ascii_case(n, "Sec-WebSocket-Key"@) ==> n.len() == 17,
        eq_ignore_ascii_case(n, "Upgrade"@) ==> n.len() == 7,
{
    reveal_strlit("Origin");
    reveal_strlit("Connection");
    reveal_strlit("Host");
    reveal_strlit("Sec-WebSocket-Key");
    reveal_strlit("Upgrade");
}

proof fn lemma_scan_line_flags(st: ScanState, line: Seq<char>, allowed: Option<Seq<char>>)
    requires
        scan_line(st, line, allowed) is Ok,
    ensures
        ({
            let st2 = scan_line(st, line, allowed)->Ok_0;
            &&& st2.connection_upgrade == flag_after(
                st.connection_upgrade,
                named_value(line, "Connection"@),
                |v: Seq<char>| has_token(v, "upgrade"@),
            )
            &&& st2.host == flag_after(st.host, named_value(line, "Host"@), |v: Seq<char>| v.len() > 0)
            &&& st2.websocket_key == flag_after(
                st.websocket_key,
                named_value(line, "Sec-WebSocket-Key"@),
                |v: Seq<char>| v.len() > 0,
            )
            &&& st2.websocket_upgrade == flag_after(
                st.websocket_upgrade,
                named_value(line, "Upgrade"@),
                |v: Seq<char>| eq_ignore_ascii_case(v, "websocket"@),
            )
            &&& st2.origin == (st.origin || origin_value(line) is Some)
            &&& (st.origin ==> origin_value(line) is None)
        }),
{
    if line.len() > 0 {
        let (n, raw) = split_once(line, ':')->0;
        lemma_header_names_differ(n);
    }
}

proof fn lemma_scan_lines_flags(lines: Seq<Seq<char>>, st: ScanState, allowed: Option<Seq<char>>)
    requires
        scan_lines(lines, st, allowed) is Ok,
    ensures
        ({
            let fin = scan_lines(lines, st, allowed)->Ok_0;
            &&& fin.connection_upgrade == flag_after(
                st.connection_upgrade,
                last_value(lines, "Connection"@),
                |v: Seq<char>| has_token(v, "upgrade"@),
            )
            &&& fin.host == flag_after(st.host, last_value(lines, "Host"@), |v: Seq<char>| v.len() > 0)
            &&& fin.websocket_key == flag_after(
                st.websocket_key,
                last_value(lines, "Sec-WebSocket-Key"@),
                |v: Seq<char>| v.len() > 0,
            )
            &&& fin.websocket_upgrade == flag_after(
                st.websocket_upgrade,
                last_value(lines, "Upgrade"@),
                |v: Seq<char>| eq_ignore_ascii_case(v, "websocket"@),
            )
            &&& origin_count(lines) + (if st.origin { 1int } else { 0int }) <= 1
        }),
    decreases lines.len(),
{
    if lines.len() > 0 {
        let line = lines[0];
        lemma_scan_line_flags(st, line, allowed);
        let st2 = scan_line(st, line, allowed)->Ok_0;
        lemma_scan_lines_flags(lines.drop_first(), st2, allowed);
    }
}

/// A forwarded handshake is the request line, the request's header lines without
/// blank lines and without `Origin` lines, in their order, the blank line, and the
/// bytes that followed the headers, unchanged; and it is only forwarded when every
/// `Origin` line names the allowed origin.
pub proof fn law_handshake_strips_only_the_allowed_origin(request: Seq<u8>, allowed: Option<Seq<char>>)
    requires
        rewritten_handshake(request, allowed) is Ok,
    ensures
        ({
            let end = header_end(request)->0;
            let lines = split_crlf(decode_utf8(request.take(end)));
            &&& rewritten_handshake(request, allowed)->Ok_0 == encode_utf8(
                lines[0] + crlf() + forwarded_lines(lines.drop_first()) + crlf(),
            ) + request.skip(end)
            &&& forall|i: int|
                1 <= i < lines.len() && #[trigger] origin_value(lines[i]) is Some ==> allowed == Some(
                    origin_value(lines[i])->0,
                )
            &&& valid_request_line(lines[0])
            &&& origin_count(lines.drop_first()) <= 1
            &&& last_value(lines.drop_first(), "Connection"@) matches Some(v) && has_token(v, "upgrade"@)
            &&& last_value(lines.drop_first(), "Host"@) matches Some(v) && v.len() > 0
            &&& last_value(lines.drop_first(), "Sec-WebSocket-Key"@) matches Some(v) && v.len() > 0
            &&& last_value(lines.drop_first(), "Upgrade"@) matches Some(v) && eq_ignore_ascii_case(
                v,
                "websocket"@,
            )
        }),
{
    let end = header_end(request)->0;
    let lines = split_crlf(decode_utf8(request.take(end)));
    let start = ScanState {
        out: lines[0] + crlf(),
        connection_upgrade: false,
        host: false,
        origin: false,
        websocket_key: false,
        websocket_upgrade: false,
    };
    lemma_scan_lines_forwards(lines.drop_first(), start, allowed);
    lemma_scan_lines_flags(lines.drop_first(), start, allowed);
    assert forall|i: int|
        1 <= i < lines.len() && #[trigger] origin_value(lines[i]) is Some implies allowed == Some(
            origin_value(lines[i])->0,
        ) by {
        assert(lines[i] == lines.drop_first()[i - 1]);
    }
}

} // verus!
