//! Verification of release-built postmarketOS APK updates: the published checksum
//! file, and the digest of what was downloaded.
use vstd::prelude::*;
use sha2::Digest;
use crate::text::{
    append_str, chars_eq, is_ascii_hexdigit, lines, lower_seq, split_lines, split_ws, str_result,
    string_from_chars, to_ascii_lowercase, to_chars, trim, trim_chars, views, ws_tokens,
};

verus! {

/// The release asset the updater downloads.
pub const APK_ASSET_NAME: &'static str = "codex-desktop-linux-postmarketos-aarch64.apk";

/// Where the latest APK is published.
pub const APK_RELEASE_URL: &'static str = "https://github.com/Sr-0w/codex-desktop-linux/releases/latest/download/codex-desktop-linux-postmarketos-aarch64.apk";

/// Where the checksum of the latest APK is published.
pub const APK_CHECKSUM_URL: &'static str = "https://github.com/Sr-0w/codex-desktop-linux/releases/latest/download/codex-desktop-linux-postmarketos-aarch64.apk.sha256";

/// `std::path::PathBuf`, held as the operating system gave it.
#[verifier::external_type_specification]
#[verifier::external_body]
pub struct ExPathBuf(std::path::PathBuf);

/// `PathBuf::clone`: a path holding the same bytes.
pub assume_specification[ <std::path::PathBuf as Clone>::clone ](p: &std::path::PathBuf) -> (r: std::path::PathBuf)
    ensures
        r == *p,
;

/// A downloaded APK whose digest matched the published checksum.
#[derive(Debug, Clone, PartialEq, Eq)]
pub struct DownloadedApk {
    pub path: std::path::PathBuf,
    pub sha256: String,
    pub candidate_version: String,
}

/// The first line that is not blank, trimmed.
pub open spec fn first_nonblank(ls: Seq<Seq<char>>) -> Option<Seq<char>>
    decreases ls.len(),
{
    if ls.len() == 0 {
        None
    } else if trim(ls[0]).len() > 0 {
        Some(trim(ls[0]))
    } else {
        first_nonblank(ls.drop_first())
    }
}

/// `s` without its leading `*`s.
pub open spec fn strip_stars(s: Seq<char>) -> Seq<char>
    decreases s.len(),
{
    if s.len() > 0 && s[0] == '*' {
        strip_stars(s.drop_first())
    } else {
        s
    }
}

/// A SHA-256 value written in hex: 64 hex digits.
pub open spec fn is_sha256_hex(s: Seq<char>) -> bool {
    s.len() == 64 && forall|i: int| 0 <= i < s.len() ==> is_ascii_hexdigit(#[trigger] s[i])
}

/// The checksum a `sha256sum`-style file gives for `expected`: its first non-blank
/// line must be `<64 hex digits> <file name>` (the file name may start with `*`),
/// naming `expected`; the checksum comes back in lower case.
pub open spec fn checksum_of(content: Seq<char>, expected: Seq<char>) -> Result<Seq<char>, Seq<char>> {
    match first_nonblank(lines(content)) {
        None => Err("APK checksum response is empty"@),
        Some(line) => {
            let fields = ws_tokens(line);
            if fields.len() == 0 {
                Err("APK checksum is missing"@)
            } else if fields.len() == 1 {
                Err("APK checksum filename is missing"@)
            } else if fields.len() > 2 {
                Err("APK checksum response contains unexpected fields"@)
            } else if strip_stars(fields[1]) != expected {
                Err("APK checksum names "@ + strip_stars(fields[1]) + ", expected "@ + expected)
            } else if !is_sha256_hex(fields[0]) {
                Err("APK checksum is not a SHA-256 value"@)
            } else {
                Ok(lower_seq(fields[0]))
            }
        },
    }
}

fn strip_leading_stars(v: &[char]) -> (r: Vec<char>)
    ensures
        r@ == strip_stars(v@),
{
    let mut i: usize = 0;
    assert(v@.skip(0) =~= v@);
    while i < v.len() && v[i] == '*'
        invariant
            i <= v.len(),
            strip_stars(v@.skip(i as int)) == strip_stars(v@),
        decreases v.len() - i,
    {
        assert(v@.skip(i as int).drop_first() =~= v@.skip(i + 1));
        i = i + 1;
    }
    let r = crate::text::slice_range(v, i, v.len());
    assert(r@ =~= v@.skip(i as int));
    r
}

fn all_hex(v: &[char]) -> (r: bool)
    ensures
        r == (forall|i: int| 0 <= i < v@.len() ==> is_ascii_hexdigit(#[trigger] v@[i])),
{
    let mut i: usize = 0;
    while i < v.len()
        invariant
            i <= v.len(),
            forall|k: int| 0 <= k < i ==> is_ascii_hexdigit(#[trigger] v@[k]),
        decreases v.len() - i,
    {
        let c = v[i];
        if !(('0' <= c && c <= '9') || ('a' <= c && c <= 'f') || ('A' <= c && c <= 'F')) {
            return false;
        }
        i = i + 1;
    }
    true
}

fn first_nonblank_line(ls: &Vec<Vec<char>>) -> (r: Option<Vec<char>>)
    ensures
        match r {
            Some(l) => first_nonblank(views(ls@)) == Some(l@),
            None => first_nonblank(views(ls@)) is None,
        },
{
    let ghost all = views(ls@);
    let mut i: usize = 0;
    assert(all.skip(0) =~= all);
    while i < ls.len()
        invariant
            i <= ls.len(),
            all == views(ls@),
            first_nonblank(all.skip(i as int)) == first_nonblank(all),
        decreases ls.len() - i,
    {
        let t = trim_chars(ls[i].as_slice());
        assert(all.skip(i as int)[0] == ls@[i as int]@);
        assert(all.skip(i as int).drop_first() =~= all.skip(i + 1));
        if t.len() > 0 {
            return Some(t);
        }
        i = i + 1;
    }
    assert(all.skip(i as int).len() == 0);
    None
}

/// Reads the checksum of `expected_file_name` from a published checksum file.
pub fn parse_checksum(content: &str, expected_file_name: &str) -> (r: Result<String, String>)
    ensures
        str_result(r) == checksum_of(content@, expected_file_name@),
{
    let chars = to_chars(content);
    let ls = split_lines(chars.as_slice());
    let line = match first_nonblank_line(&ls) {
        Some(l) => l,
        None => return Err(String::from_str("APK checksum response is empty")),
    };
    let fields = split_ws(line.as_slice());
    let ghost fv = views(fields@);
    assert(fv.len() == fields@.len());
    if fields.len() == 0 {
        return Err(String::from_str("APK checksum is missing"));
    }
    if fields.len() == 1 {
        return Err(String::from_str("APK checksum filename is missing"));
    }
    if fields.len() > 2 {
        return Err(String::from_str("APK checksum response contains unexpected fields"));
    }
    assert(fv[0] == fields@[0]@ && fv[1] == fields@[1]@);
    let file_name = strip_leading_stars(fields[1].as_slice());
    let expected = to_chars(expected_file_name);
    if !chars_eq(file_name.as_slice(), expected.as_slice()) {
        let mut m = to_chars("APK checksum names ");
        crate::text::append_chars(&mut m, file_name.as_slice());
        append_str(&mut m, ", expected ");
        append_str(&mut m, expected_file_name);
        return Err(string_from_chars(m.as_slice()));
    }
    let checksum = &fields[0];
    if !(checksum.len() == 64 && all_hex(checksum.as_slice())) {
        return Err(String::from_str("APK checksum is not a SHA-256 value"));
    }
    let lower = to_ascii_lowercase(checksum.as_slice());
    Ok(string_from_chars(lower.as_slice()))
}

/// The SHA-256 digest of some bytes.
pub uninterp spec fn sha256_of(data: Seq<u8>) -> Seq<u8>;

/// `Sha256::digest` of the `sha2` crate. Its result is named `sha256_of`; the
/// crate's output type for SHA-256 holds 32 bytes.
#[verifier::external_body]
fn sha256_digest(data: &[u8]) -> (r: Vec<u8>)
    ensures
        r@ == sha256_of(data@),
        r@.len() == 32,
{
    sha2::Sha256::digest(data).to_vec()
}

/// The lower-case hex digit for a value below 16.
pub open spec fn hex_digit(n: u8) -> char {
    if n < 10 {
        (('0' as u8) + n) as char
    } else {
        (('a' as u8) + n - 10) as char
    }
}

/// Bytes in lower-case hex, two digits each.
pub open spec fn hex_of(bytes: Seq<u8>) -> Seq<char>
    decreases bytes.len(),
{
    if bytes.len() == 0 {
        Seq::empty()
    } else {
        hex_of(bytes.drop_last()) + seq![hex_digit(bytes.last() / 16), hex_digit(bytes.last() % 16)]
    }
}

fn hex_char(n: u8) -> (c: char)
    requires
        n < 16,
    ensures
        c == hex_digit(n),
{
    if n < 10 {
        (('0' as u8) + n) as char
    } else {
        (('a' as u8) + n - 10) as char
    }
}

/// Bytes in lower-case hex.
pub fn hex_lower(bytes: &[u8]) -> (r: String)
    ensures
        r@ == hex_of(bytes@),
{
    let mut v: Vec<char> = Vec::new();
    let mut i: usize = 0;
    while i < bytes.len()
        invariant
            i <= bytes.len(),
            v@ == hex_of(bytes@.take(i as int)),
        decreases bytes.len() - i,
    {
        let b = bytes[i];
        v.push(hex_char(b / 16));
        v.push(hex_char(b % 16));
        assert(bytes@.take(i + 1).drop_last() =~= bytes@.take(i as int));
        i = i + 1;
    }
    assert(bytes@.take(bytes.len() as int) =~= bytes@);
    string_from_chars(v.as_slice())
}

/// The SHA-256 digest of `data`, in lower-case hex.
pub fn sha256_hex(data: &[u8]) -> (r: String)
    ensures
        r@ == hex_of(sha256_of(data@)),
{
    let digest = sha256_digest(data);
    hex_lower(digest.as_slice())
}

/// The digest check of a download: it passes exactly when the hex digest of what
/// was downloaded equals the expected checksum, and then gives that digest.
pub open spec fn digest_check(actual: Seq<char>, expected: Seq<char>) -> Result<Seq<char>, Seq<char>> {
    if actual == expected {
        Ok(actual)
    } else {
        Err("Downloaded APK SHA-256 mismatch: expected "@ + expected + ", got "@ + actual)
    }
}

/// Checks the downloaded bytes against the published checksum.
pub fn verify_apk_digest(data: &[u8], expected_sha256: &str) -> (r: Result<String, String>)
    ensures
        str_result(r) == digest_check(hex_of(sha256_of(data@)), expected_sha256@),
{
    let actual = sha256_hex(data);
    let a = to_chars(actual.as_str());
    let e = to_chars(expected_sha256);
    if chars_eq(a.as_slice(), e.as_slice()) {
        Ok(actual)
    } else {
        let mut m = to_chars("Downloaded APK SHA-256 mismatch: expected ");
        append_str(&mut m, expected_sha256);
        append_str(&mut m, ", got ");
        append_str(&mut m, actual.as_str());
        Err(string_from_chars(m.as_slice()))
    }
}

/// An accepted checksum is a SHA-256 value in canonical form: 64 lower-case hex digits.
pub proof fn law_checksum_is_lower_case_sha256(content: Seq<char>, expected: Seq<char>)
    ensures
        checksum_of(content, expected) matches Ok(c) ==> c.len() == 64 && forall|i: int|
            0 <= i < 64 ==> ('0' <= #[trigger] c[i] <= '9' || 'a' <= c[i] <= 'f'),
{
    if checksum_of(content, expected) is Ok {
        let line = first_nonblank(lines(content))->0;
        let d = ws_tokens(line)[0];
        assert forall|i: int| 0 <= i < 64 implies ('0' <= #[trigger] lower_seq(d)[i] <= '9' || 'a'
            <= lower_seq(d)[i] <= 'f') by {
            assert(is_ascii_hexdigit(d[i]));
        }
    }
}

} // verus!
