//! The extension of a request path: the text that follows its last `.`.

use vstd::prelude::*;
use crate::text::ascii_lower_char;
use crate::text::ascii_lowercase;
use crate::text::to_ascii_lowercase;

verus! {

/// Whether `at` is the place of the last `.` in `path`.
pub open spec fn is_last_dot(path: Seq<char>, at: int) -> bool {
    &&& 0 <= at < path.len()
    &&& path[at] == '.'
    &&& forall|j: int| at < j < path.len() ==> path[j] != '.'
}

/// The place of the last `.` in a path that has one.
pub open spec fn last_dot(path: Seq<char>) -> int {
    choose|at: int| is_last_dot(path, at)
}

/// The extension of a path: what follows its last `.`, in ASCII lower case.
/// A path without any `.` has none. The whole path is searched, so the
/// extension may be empty and may hold a `/`.
pub open spec fn extension_of(path: Seq<char>) -> Option<Seq<char>> {
    if path.contains('.') {
        Some(ascii_lowercase(path.subrange(last_dot(path) + 1, path.len() as int)))
    } else {
        None
    }
}

/// A path whose last `.` stands at `at` has the lower-cased rest as its
/// extension.
pub proof fn lemma_extension_at(path: Seq<char>, at: int)
    requires
        is_last_dot(path, at),
    ensures
        path.contains('.'),
        last_dot(path) == at,
        extension_of(path) == Some(ascii_lowercase(path.subrange(at + 1, path.len() as int))),
{
    assert(path[at] == '.');
    let chosen = last_dot(path);
    assert(is_last_dot(path, chosen));
    if chosen < at {
        assert(path[at] != '.');
    }
    if at < chosen {
        assert(path[chosen] != '.');
    }
}

/// A path that holds a `.` has a last one.
pub proof fn lemma_last_dot_exists(path: Seq<char>)
    requires
        path.contains('.'),
    ensures
        is_last_dot(path, last_dot(path)),
    decreases path.len(),
{
    let end = path.len() - 1;
    if path[end] == '.' {
        assert(is_last_dot(path, end));
    } else {
        let shorter = path.drop_last();
        let somewhere = choose|i: int| 0 <= i < path.len() && path[i] == '.';
        assert(shorter[somewhere] == '.');
        lemma_last_dot_exists(shorter);
        let at = last_dot(shorter);
        assert(path[at] == shorter[at]);
        assert forall|j: int| at < j < path.len() implies path[j] != '.' by {
            if j < end {
                assert(path[j] == shorter[j]);
            }
        }
        assert(is_last_dot(path, at));
    }
}

/// An extension holds no `.` and no ASCII capital letter.
pub proof fn lemma_extension_is_folded(path: Seq<char>)
    requires
        path.contains('.'),
    ensures
        extension_of(path) matches Some(token) && forall|i: int|
            0 <= i < token.len() ==> token[i] != '.' && !('A' <= token[i] && token[i] <= 'Z'),
{
    lemma_last_dot_exists(path);
    let at = last_dot(path);
    let rest = path.subrange(at + 1, path.len() as int);
    assert forall|i: int| 0 <= i < rest.len() implies ascii_lowercase(rest)[i] != '.' && !('A'
        <= ascii_lowercase(rest)[i] && ascii_lowercase(rest)[i] <= 'Z') by {
        assert(rest[i] == path[at + 1 + i]);
        assert(ascii_lowercase(rest)[i] == ascii_lower_char(rest[i]));
    }
}

/// Two paths that differ in the case of ASCII letters only have the same
/// extension.
pub proof fn lemma_extension_ignores_case(p: Seq<char>, q: Seq<char>)
    requires
        ascii_lowercase(p) == ascii_lowercase(q),
    ensures
        extension_of(p) == extension_of(q),
{
    assert(p.len() == ascii_lowercase(p).len());
    assert(q.len() == ascii_lowercase(q).len());
    assert forall|i: int| 0 <= i < p.len() implies (p[i] == '.' <==> q[i] == '.') by {
        assert(ascii_lowercase(p)[i] == ascii_lower_char(p[i]));
        assert(ascii_lowercase(q)[i] == ascii_lower_char(q[i]));
    }
    if p.contains('.') {
        lemma_last_dot_exists(p);
        let at = last_dot(p);
        assert(q[at] == '.');
        assert(is_last_dot(q, at));
        lemma_extension_at(q, at);
        let rest_p = p.subrange(at + 1, p.len() as int);
        let rest_q = q.subrange(at + 1, q.len() as int);
        assert forall|i: int| 0 <= i < rest_p.len() implies ascii_lower_char(rest_p[i])
            == ascii_lower_char(rest_q[i]) by {
            assert(ascii_lowercase(p)[at + 1 + i] == ascii_lower_char(p[at + 1 + i]));
            assert(ascii_lowercase(q)[at + 1 + i] == ascii_lower_char(q[at + 1 + i]));
        }
        assert(ascii_lowercase(rest_p) =~= ascii_lowercase(rest_q));
    } else {
        if q.contains('.') {
            let somewhere = choose|i: int| 0 <= i < q.len() && q[i] == '.';
            assert(p[somewhere] == '.');
        }
    }
}

/// Extracts the extension of a path: a copy of what follows the last `.`, in
/// ASCII lower case. A path without any `.` has no extension.
pub fn extension_token(path: &str) -> (extension: Option<String>)
    ensures
        match extension {
            Some(token) => extension_of(path@) == Some(token@),
            None => extension_of(path@) == None::<Seq<char>>,
        },
        extension.is_none() == !path@.contains('.'),
        match extension {
            Some(token) => forall|i: int|
                0 <= i < token@.len() ==> token@[i] != '.' && !('A' <= token@[i] && token@[i]
                    <= 'Z'),
            None => true,
        },
{
    let length = path.unicode_len();
    let mut seen: usize = 0;
    let mut dot: Option<usize> = None;
    for c in walk: path.chars()
        invariant
            walk.seq() == path@,
            length == path@.len(),
            seen == walk.index(),
            match dot {
                Some(at) => is_last_dot(path@.take(seen as int), at as int),
                None => forall|j: int| 0 <= j < seen ==> path@[j] != '.',
            },
    {
        if c == '.' {
            dot = Some(seen);
        }
        seen += 1;
    }
    match dot {
        Some(at) => {
            proof {
                assert(path@.take(seen as int) =~= path@);
                lemma_extension_at(path@, at as int);
                lemma_extension_is_folded(path@);
            }
            let rest = path.substring_char(at + 1, length);
            Some(to_ascii_lowercase(rest))
        },
        None => None,
    }
}

} // verus!
