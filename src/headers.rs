use vstd::prelude::*;

verus! {

/// A character that may appear in an HTTP header value: a tab, or any
/// character from space upward except DEL.
pub open spec fn header_char_ok(c: char) -> bool {
    c == '\t' || (c as u32 >= 32 && c as u32 != 127)
}

/// A string that may be sent as an HTTP header value.
pub open spec fn valid_header_value(s: Seq<char>) -> bool {
    forall|i: int| 0 <= i < s.len() ==> header_char_ok(#[trigger] s[i])
}

/// The parts joined by `,`, in their order.
pub open spec fn comma_joined(parts: Seq<Seq<char>>) -> Seq<char>
    decreases parts.len(),
{
    if parts.len() == 0 {
        Seq::empty()
    } else if parts.len() == 1 {
        parts[0]
    } else {
        comma_joined(parts.drop_last()) + seq![','] + parts.last()
    }
}

/// The character views of a list of strings.
pub open spec fn strings_view(v: Seq<String>) -> Seq<Seq<char>> {
    v.map_values(|s: String| s@)
}

/// The character views of a list of header name/value pairs.
pub open spec fn pairs_view(v: Seq<(String, String)>) -> Seq<(Seq<char>, Seq<char>)> {
    v.map_values(|p: (String, String)| (p.0@, p.1@))
}

/// Whether every character of `s` may stand in an HTTP header value.
pub fn is_valid_header_value(s: &str) -> (r: bool)
    ensures
        r == valid_header_value(s@),
{
    let n: usize = s.unicode_len();
    let mut i: usize = 0;
    while i < n
        invariant
            n == s@.len(),
            i <= n,
            forall|j: int| 0 <= j < i ==> header_char_ok(#[trigger] s@[j]),
        decreases n - i,
    {
        let c = s.get_char(i);
        if !(c == '\t' || (c as u32 >= 32 && c as u32 != 127)) {
            return false;
        }
        i = i + 1;
    }
    true
}

/// Joins `parts` with `,`, keeping their order.
pub fn join_with_commas(parts: &Vec<String>) -> (r: String)
    ensures
        r@ == comma_joined(strings_view(parts@)),
{
    let ghost v = strings_view(parts@);
    if parts.len() == 0 {
        return String::new();
    }
    let mut r = parts[0].clone();
    assert(v.subrange(0, 1) =~= seq![v[0]]);
    let comma = ",";
    proof {
        reveal_strlit(",");
    }
    let mut i: usize = 1;
    while i < parts.len()
        invariant
            1 <= i <= parts@.len(),
            v == strings_view(parts@),
            comma@ == seq![','],
            r@ == comma_joined(v.subrange(0, i as int)),
        decreases parts@.len() - i,
    {
        r.append(comma);
        r.append(parts[i].as_str());
        assert(v.subrange(0, i + 1).drop_last() =~= v.subrange(0, i as int));
        i = i + 1;
    }
    assert(v.subrange(0, parts@.len() as int) =~= v);
    r
}

/// A copy of a list of header name/value pairs.
pub fn copy_pairs(v: &Vec<(String, String)>) -> (r: Vec<(String, String)>)
    ensures
        pairs_view(r@) == pairs_view(v@),
{
    let mut r: Vec<(String, String)> = Vec::new();
    let mut i: usize = 0;
    while i < v.len()
        invariant
            i <= v@.len(),
            pairs_view(r@) == pairs_view(v@).subrange(0, i as int),
        decreases v@.len() - i,
    {
        let ghost before = r@;
        let name = v[i].0.clone();
        let value = v[i].1.clone();
        assert(name@ == v@[i as int].0@ && value@ == v@[i as int].1@);
        r.push((name, value));
        assert(r@ == before.push((name, value)));
        assert(pairs_view(r@) =~= pairs_view(before).push((v@[i as int].0@, v@[i as int].1@)));
        assert(pairs_view(r@) =~= pairs_view(v@).subrange(0, i + 1));
        i = i + 1;
    }
    assert(pairs_view(v@).subrange(0, v@.len() as int) =~= pairs_view(v@));
    r
}

} // verus!
