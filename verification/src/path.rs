//! The parts of `std::path::Path` that the package logic reads, modelled on the
//! characters of a Unix path.
use vstd::prelude::*;
use crate::text::{char_pred, chars_eq, lemma_rfind_char, lemma_trim_end_by, rfind, rfind_char, slice_range, trim_end_by};

verus! {

pub proof fn lemma_trim_end_prefix(s: Seq<char>, p: spec_fn(char) -> bool)
    ensures
        trim_end_by(s, p).len() <= s.len(),
        trim_end_by(s, p) == s.take(trim_end_by(s, p).len() as int),
        trim_end_by(s, p).len() > 0 ==> !p(trim_end_by(s, p).last()),
    decreases s.len(),
{
    if s.len() > 0 && p(s.last()) {
        lemma_trim_end_prefix(s.drop_last(), p);
        assert(s.drop_last().take(trim_end_by(s, p).len() as int) =~= s.take(
            trim_end_by(s, p).len() as int,
        ));
    } else {
        assert(s.take(s.len() as int) =~= s);
    }
}

/// `Path::file_name`: the last component when it is a normal one. Trailing `/`
/// separators and `.` components are skipped; `..`, the root and an empty path
/// have no file name.
pub open spec fn file_name(s: Seq<char>) -> Option<Seq<char>>
    decreases s.len(),
{
    let t = trim_end_by(s, char_pred('/'));
    if t.len() == 0 {
        None
    } else {
        let i = rfind_char(t, '/');
        let last = t.skip(i + 1);
        if last == seq!['.'] {
            if i < 0 {
                None
            } else {
                proof {
                    lemma_trim_end_prefix(s, char_pred('/'));
                    lemma_rfind_char(t, '/');
                }
                file_name(t.take(i + 1))
            }
        } else if last == seq!['.', '.'] {
            None
        } else {
            Some(last)
        }
    }
}

/// `Path::extension` of a file name: the text after its last `.`, unless that dot is
/// the first character or there is none.
pub open spec fn extension(name: Seq<char>) -> Option<Seq<char>> {
    let i = rfind_char(name, '.');
    if i > 0 {
        Some(name.skip(i + 1))
    } else {
        None
    }
}

/// Length of `v` without its trailing `/` characters.
fn trim_end_slashes(v: &[char]) -> (r: usize)
    ensures
        r <= v.len(),
        v@.take(r as int) == trim_end_by(v@, char_pred('/')),
{
    let mut j = v.len();
    while j > 0 && v[j - 1] == '/'
        invariant
            j <= v.len(),
            forall|k: int| j <= k < v.len() ==> #[trigger] char_pred('/')(v@[k]),
        decreases j,
    {
        j = j - 1;
    }
    proof {
        lemma_trim_end_by(v@, char_pred('/'), j as int);
        assert(v@.subrange(0, j as int) =~= v@.take(j as int));
    }
    j
}

/// The file name of a path, as `Path::file_name` gives it.
pub fn path_file_name(v: &[char]) -> (r: Option<Vec<char>>)
    ensures
        match r {
            Some(n) => file_name(v@) == Some(n@),
            None => file_name(v@) is None,
        },
    decreases v.len(),
{
    let end = trim_end_slashes(v);
    let ghost t = v@.take(end as int);
    if end == 0 {
        return None;
    }
    let t_vec = slice_range(v, 0, end);
    assert(t_vec@ =~= t);
    let pos = rfind(t_vec.as_slice(), '/');
    proof {
        lemma_rfind_char(t, '/');
    }
    let start: usize = match pos {
        Some(i) => i + 1,
        None => 0,
    };
    proof {
        lemma_rfind_char(t, '/');
        lemma_trim_end_prefix(v@, char_pred('/'));
    }
    let last = slice_range(t_vec.as_slice(), start, end);
    assert(last@ =~= t.skip(rfind_char(t, '/') + 1));
    let dot = ['.'];
    let dotdot = ['.', '.'];
    assert(dot@ =~= seq!['.']);
    assert(dotdot@ =~= seq!['.', '.']);
    if chars_eq(last.as_slice(), &dot) {
        match pos {
            None => None,
            Some(i) => {
                let prefix = slice_range(t_vec.as_slice(), 0, i + 1);
                assert(prefix@ =~= t.take(i + 1));
                path_file_name(prefix.as_slice())
            },
        }
    } else if chars_eq(last.as_slice(), &dotdot) {
        None
    } else {
        Some(last)
    }
}

/// The extension of a file name, as `Path::extension` gives it.
pub fn name_extension(name: &[char]) -> (r: Option<Vec<char>>)
    ensures
        match r {
            Some(e) => extension(name@) == Some(e@),
            None => extension(name@) is None,
        },
{
    let n = name.len();
    let pos = rfind(name, '.');
    proof {
        lemma_rfind_char(name@, '.');
    }
    match pos {
        Some(i) => {
            if i > 0 {
                assert(i < n);
                Some(slice_range(name, i + 1, n))
            } else {
                None
            }
        },
        None => None,
    }
}

} // verus!
