//! Paths as text, joined with `/`.

use crate::text::{free_of, holds_char};
use vstd::prelude::*;
use vstd::string::*;

verus! {

/// Whether `s` can name one entry of a directory: not empty and free of `/`.
pub open spec fn is_name(s: Seq<char>) -> bool {
    s.len() > 0 && free_of(s, '/')
}

/// `base` as the prefix of the paths below it: with a `/` at its end, unless
/// it is empty or has one.
pub open spec fn with_slash(base: Seq<char>) -> Seq<char> {
    if base.len() == 0 || base.last() == '/' {
        base
    } else {
        base.push('/')
    }
}

/// The path `rel` as seen from the directory `base`: `rel` itself where it is
/// absolute, else `rel` below `base`.
pub open spec fn join(base: Seq<char>, rel: Seq<char>) -> Seq<char> {
    if rel.len() > 0 && rel[0] == '/' {
        rel
    } else {
        with_slash(base) + rel
    }
}

/// Whether `s` can name one entry of a directory.
pub fn is_file_name(s: &str) -> (ok: bool)
    ensures
        ok == is_name(s@),
{
    s.unicode_len() > 0 && !holds_char(s, '/')
}

/// Joins `rel` to `base`.
pub fn join_path(base: &str, rel: &str) -> (path: String)
    ensures
        path@ == join(base@, rel@),
{
    let rel_len = rel.unicode_len();
    if rel_len > 0 && rel.get_char(0) == '/' {
        return String::from_str(rel);
    }
    let base_len = base.unicode_len();
    let mut path = String::from_str(base);
    if base_len > 0 && base.get_char(base_len - 1) != '/' {
        path.append("/");
        proof {
            reveal_strlit("/");
            assert(path@ =~= base@.push('/'));
        }
    }
    path.append(rel);
    path
}

/// Text that is appended to a common beginning can be read back.
pub proof fn lemma_prefix_cancel(p: Seq<char>, x: Seq<char>, y: Seq<char>)
    requires
        p + x == p + y,
    ensures
        x == y,
{
    assert(x =~= (p + x).subrange(p.len() as int, (p + x).len() as int));
    assert(y =~= (p + y).subrange(p.len() as int, (p + y).len() as int));
}

/// A name joined to a directory lies below it: the result begins with the
/// directory and ends with the name.
pub proof fn lemma_join_name(base: Seq<char>, name: Seq<char>)
    requires
        is_name(name),
    ensures
        join(base, name) == with_slash(base) + name,
        join(base, name).len() > base.len(),
        join(base, name).subrange(0, base.len() as int) == base,
        join(base, name).len() > 0,
        join(base, name).last() != '/',
{
    let j = join(base, name);
    assert(name[0] != '/');
    assert(j.subrange(0, base.len() as int) =~= base);
    assert(j.last() == name.last());
}

/// Two names below one directory give two paths, unless they are one name.
pub proof fn lemma_join_injective(base: Seq<char>, a: Seq<char>, b: Seq<char>)
    requires
        is_name(a),
        is_name(b),
        join(base, a) == join(base, b),
    ensures
        a == b,
{
    lemma_join_name(base, a);
    lemma_join_name(base, b);
    lemma_prefix_cancel(with_slash(base), a, b);
}

} // verus!
