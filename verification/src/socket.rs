//! The directory the native host puts its client socket in.
use vstd::prelude::*;
use crate::text::{append_chars, append_str, decimal, decimal_chars, string_from_chars, to_chars};

verus! {

/// The socket directory must be a real directory owned by the host's user; the
/// result tells whether its permissions must be narrowed to `0700`.
pub open spec fn socket_dir_check(
    is_dir: bool,
    owner_uid: u32,
    effective_uid: u32,
    mode: u32,
    path: Seq<char>,
) -> Result<bool, Seq<char>> {
    if !is_dir {
        Err("unix socket directory path is not a directory: "@ + path)
    } else if owner_uid != effective_uid {
        Err(
            "unix socket directory is owned by uid "@ + decimal(owner_uid as nat) + ", expected "@
                + decimal(effective_uid as nat) + ": "@ + path,
        )
    } else {
        Ok(mode & 0o777 != 0o700)
    }
}

/// Checks what `symlink_metadata` reported of the socket directory at `path`.
pub fn check_socket_dir(
    is_dir: bool,
    owner_uid: u32,
    effective_uid: u32,
    mode: u32,
    path: &str,
) -> (r: Result<bool, String>)
    ensures
        match (r, socket_dir_check(is_dir, owner_uid, effective_uid, mode, path@)) {
            (Ok(a), Ok(b)) => a == b,
            (Err(e), Err(m)) => e@ == m,
            _ => false,
        },
{
    if !is_dir {
        let mut m = to_chars("unix socket directory path is not a directory: ");
        append_str(&mut m, path);
        return Err(string_from_chars(m.as_slice()));
    }
    if owner_uid != effective_uid {
        let mut m = to_chars("unix socket directory is owned by uid ");
        let owner = decimal_chars(owner_uid as u64);
        append_chars(&mut m, owner.as_slice());
        append_str(&mut m, ", expected ");
        let expected = decimal_chars(effective_uid as u64);
        append_chars(&mut m, expected.as_slice());
        append_str(&mut m, ": ");
        append_str(&mut m, path);
        return Err(string_from_chars(m.as_slice()));
    }
    Ok(mode & 0o777 != 0o700)
}

} // verus!
