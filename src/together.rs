use vstd::prelude::*;

use crate::merge::{entries_map, key_index, lemma_merge_overrides, merge, merged, JsonObject};

verus! {

pub const COMPLETIONS_PATH: &'static str = "/v1/chat/completions";

pub const STREAM_FLAG: &'static str = "stream_tokens";

pub const JSON_TRUE: &'static str = "true";

/// The body of a streaming completion request: `request` with
/// `"stream_tokens": true` merged over it, replacing any value it had.
pub fn streaming_request_body(request: JsonObject) -> (r: JsonObject)
    requires
        request.wf(),
    ensures
        r.wf(),
        r.view_entries() == merged(request.view_entries(), seq![(STREAM_FLAG@, JSON_TRUE@)]),
        entries_map(r.view_entries()) == entries_map(request.view_entries()).insert(
            STREAM_FLAG@,
            JSON_TRUE@,
        ),
{
    let mut flag = JsonObject::new();
    assert(key_index(Seq::empty(), STREAM_FLAG@) is None);
    flag.insert(String::from_str(STREAM_FLAG), String::from_str(JSON_TRUE));
    assert(flag.view_entries() =~= seq![(STREAM_FLAG@, JSON_TRUE@)]);
    let r = merge(request, &flag);
    proof {
        lemma_merge_overrides(request.view_entries(), flag.view_entries());
        let f = flag.view_entries();
        assert(f.drop_last() =~= Seq::<(Seq<char>, Seq<char>)>::empty());
        assert(entries_map(f.drop_last()) =~= Map::<Seq<char>, Seq<char>>::empty());
        assert(entries_map(f) =~= Map::<Seq<char>, Seq<char>>::empty().insert(STREAM_FLAG@, JSON_TRUE@));
        assert(entries_map(r.view_entries()) =~= entries_map(request.view_entries()).insert(
            STREAM_FLAG@,
            JSON_TRUE@,
        ));
    }
    r
}

} // verus!
