use vstd::prelude::*;

verus! {

/// `s` with every trailing `/` removed.
pub open spec fn trim_trailing_slashes(s: Seq<char>) -> Seq<char>
    decreases s.len(),
{
    if s.len() > 0 && s.last() == '/' {
        trim_trailing_slashes(s.drop_last())
    } else {
        s
    }
}

/// `s` with every leading `/` removed.
pub open spec fn trim_leading_slashes(s: Seq<char>) -> Seq<char>
    decreases s.len(),
{
    if s.len() > 0 && s[0] == '/' {
        trim_leading_slashes(s.drop_first())
    } else {
        s
    }
}

/// A base URL and a path joined by exactly one `/`.
pub open spec fn joined_url(base: Seq<char>, path: Seq<char>) -> Seq<char> {
    trim_trailing_slashes(base) + seq!['/'] + trim_leading_slashes(path)
}

/// Joins `base` and `path` with exactly one `/` between them. Only slashes at
/// the seam are touched, so a scheme separator such as `://` stays intact.
pub fn join_url(base: &str, path: &str) -> (r: String)
    ensures
        r@ == joined_url(base@, path@),
{
    let mut end: usize = base.unicode_len();
    assert(base@.subrange(0, end as int) =~= base@);
    while end > 0 && base.get_char(end - 1) == '/'
        invariant
            end <= base@.len(),
            trim_trailing_slashes(base@.subrange(0, end as int)) == trim_trailing_slashes(base@),
        decreases end,
    {
        assert(base@.subrange(0, end as int).drop_last() =~= base@.subrange(0, end - 1));
        end = end - 1;
    }
    let n: usize = path.unicode_len();
    let mut start: usize = 0;
    assert(path@.subrange(0, n as int) =~= path@);
    while start < n && path.get_char(start) == '/'
        invariant
            start <= n,
            n == path@.len(),
            trim_leading_slashes(path@.subrange(start as int, n as int)) == trim_leading_slashes(path@),
        decreases n - start,
    {
        assert(path@.subrange(start as int, n as int).drop_first() =~= path@.subrange(start + 1, n as int));
        start = start + 1;
    }
    let mut r = String::from_str(base.substring_char(0, end));
    let sep = "/";
    proof {
        reveal_strlit("/");
    }
    r.append(sep);
    r.append(path.substring_char(start, n));
    assert(r@ =~= joined_url(base@, path@));
    r
}

/// Joining a base URL that has no trailing `/` and a path that has no leading
/// `/` puts exactly one `/` between them and leaves the base, scheme
/// separator included, as it was.
pub proof fn lemma_join_keeps_base(base: Seq<char>, path: Seq<char>)
    requires
        base.len() == 0 || base.last() != '/',
        path.len() == 0 || path[0] != '/',
    ensures
        joined_url(base, path) == base + seq!['/'] + path,
        joined_url(base, path).subrange(0, base.len() as int) == base,
{
    assert((base + seq!['/'] + path).subrange(0, base.len() as int) =~= base);
}

} // verus!
