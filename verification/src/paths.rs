//! Paths as text, joined as Unix joins them.

use vstd::prelude::*;

verus! {

/// `part` below `base`: an absolute `part` stands alone, and a separator goes
/// in between unless `base` is empty or ends with one.
pub open spec fn path_join(base: Seq<char>, part: Seq<char>) -> Seq<char> {
    if part.len() > 0 && part[0] == '/' {
        part
    } else if base.len() == 0 || base.last() == '/' {
        base + part
    } else {
        base + seq!['/'] + part
    }
}

/// Joins a path and a part below it.
pub fn join(base: &str, part: &str) -> (path: String)
    ensures
        path@ == path_join(base@, part@),
{
    if part.unicode_len() > 0 && part.get_char(0) == '/' {
        return part.to_owned();
    }
    let len: usize = base.unicode_len();
    if len == 0 || base.get_char(len - 1) == '/' {
        return base.to_owned().concat(part);
    }
    proof {
        reveal_strlit("/");
        assert("/"@ =~= seq!['/']);
    }
    base.to_owned().concat("/").concat(part)
}

/// A relative part that is not empty stays visible: it is what the joined
/// path ends with, and the joined path starts with the base.
pub proof fn law_join_keeps_both(base: Seq<char>, part: Seq<char>)
    requires
        part.len() > 0,
        part[0] != '/',
    ensures
        path_join(base, part).take(base.len() as int) == base,
        path_join(base, part).skip(path_join(base, part).len() - part.len()) == part,
{
    let path = path_join(base, part);
    assert(path.take(base.len() as int) =~= base);
    assert(path.skip(path.len() - part.len()) =~= part);
}

/// Two parts below the same base are the same path only if they are the same
/// part.
pub proof fn law_join_distinct(base: Seq<char>, left: Seq<char>, right: Seq<char>)
    requires
        left.len() > 0 && left[0] != '/',
        right.len() > 0 && right[0] != '/',
        path_join(base, left) == path_join(base, right),
    ensures
        left == right,
{
    law_join_keeps_both(base, left);
    law_join_keeps_both(base, right);
    assert(left.len() == right.len());
}

/// A relative part goes behind the base and a separator, unless the base is
/// empty or ends with one; an absolute part stands alone.
pub proof fn law_join_puts_one_separator(base: Seq<char>, part: Seq<char>)
    requires
        part.len() == 0 || part[0] != '/',
    ensures
        path_join(base.push('/'), part) == base.push('/') + part,
        base.len() > 0 && base.last() != '/' ==> path_join(base, part) == base.push('/') + part,
        path_join(Seq::<char>::empty(), part) == part,
        path_join(base, seq!['/'] + part) == seq!['/'] + part,
{
    assert(base.push('/').last() == '/');
    assert(base + seq!['/'] =~= base.push('/'));
    assert(Seq::<char>::empty() + part =~= part);
    assert((seq!['/'] + part)[0] == '/');
}

} // verus!
