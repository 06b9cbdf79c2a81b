//! The JSON envelopes in which a dialog's outcome is reported:
//! `{"data":...,"success":true}` for a selection, `{"success":false}` for a
//! dialog that was dismissed. Keys stand in the order serde_json writes them.
use vstd::prelude::*;
use crate::json::{json_quoted, quote_json};

verus! {

/// The envelope of a dismissed dialog.
pub open spec fn cancelled() -> Seq<char> {
    "{\"success\":false}"@
}

/// The envelope of a successful selection whose data, as JSON text, is `data`.
pub open spec fn selected(data: Seq<char>) -> Seq<char> {
    "{\"data\":"@ + data + ",\"success\":true}"@
}

/// The quoted paths, separated by commas.
pub open spec fn quoted_list(paths: Seq<Seq<char>>) -> Seq<char>
    decreases paths.len(),
{
    if paths.len() == 0 {
        Seq::empty()
    } else if paths.len() == 1 {
        json_quoted(paths[0])
    } else {
        quoted_list(paths.drop_last()) + ","@ + json_quoted(paths.last())
    }
}

/// The envelope for a dialog that picks one path.
pub open spec fn single_envelope(picked: Option<Seq<char>>) -> Seq<char> {
    match picked {
        Some(p) => selected(json_quoted(p)),
        None => cancelled(),
    }
}

/// The envelope for a dialog that picks several paths, which keep their order.
pub open spec fn multi_envelope(picked: Option<Seq<Seq<char>>>) -> Seq<char> {
    match picked {
        Some(ps) => selected("["@ + quoted_list(ps) + "]"@),
        None => cancelled(),
    }
}

/// The envelope `e` is a JSON object whose last member is `"success"` with
/// the value `ok`.
pub open spec fn reports_success(e: Seq<char>, ok: bool) -> bool {
    let flag = if ok {
        "\"success\":true}"@
    } else {
        "\"success\":false}"@
    };
    e.len() > flag.len() && e[0] == '{' && e.subrange(e.len() - flag.len(), e.len() as int)
        == flag
}

/// Every envelope, of a single or of a multiple selection, opens a JSON
/// object and ends with the member `"success"`, true exactly when something
/// was picked.
pub proof fn lemma_envelopes_report_success(
    one: Option<Seq<char>>,
    many: Option<Seq<Seq<char>>>,
)
    ensures
        reports_success(single_envelope(one), one is Some),
        reports_success(multi_envelope(many), many is Some),
{
    reveal_strlit("{\"success\":false}");
    reveal_strlit("\"success\":false}");
    reveal_strlit("\"success\":true}");
    reveal_strlit(",\"success\":true}");
    reveal_strlit("{\"data\":");
    let t = "\"success\":true}"@;
    let f = "\"success\":false}"@;
    assert(cancelled().subrange(1, 17) =~= f);
    if let Some(p) = one {
        let e = single_envelope(one);
        assert(e =~= "{\"data\":"@ + json_quoted(p) + ",\"success\":true}"@);
        assert(e.subrange(e.len() - t.len(), e.len() as int) =~= t);
    }
    if let Some(ps) = many {
        let e = multi_envelope(many);
        let data = "["@ + quoted_list(ps) + "]"@;
        assert(e =~= "{\"data\":"@ + data + ",\"success\":true}"@);
        assert(e.subrange(e.len() - t.len(), e.len() as int) =~= t);
        assert(e[0] == '{');
    }
}

/// Reports the outcome of a dialog that picks one file or one directory.
pub fn single_result(picked: Option<String>) -> (r: String)
    ensures
        r@ == single_envelope(picked.deep_view()),
{
    match picked {
        Some(p) => {
            let mut r = String::from_str("{\"data\":");
            let q = quote_json(p.as_str());
            r.append(q.as_str());
            r.append(",\"success\":true}");
            r
        },
        None => String::from_str("{\"success\":false}"),
    }
}

/// Reports the outcome of a dialog that picks several files, in the order in
/// which they were picked.
pub fn multi_result(picked: Option<Vec<String>>) -> (r: String)
    ensures
        r@ == multi_envelope(picked.deep_view()),
{
    match picked {
        Some(paths) => {
            let ghost all = paths.deep_view();
            let mut r = String::from_str("{\"data\":[");
            let mut i: usize = 0;
            while i < paths.len()
                invariant
                    i <= paths.len(),
                    all == paths.deep_view(),
                    r@ == "{\"data\":["@ + quoted_list(all.take(i as int)),
                decreases paths.len() - i,
            {
                let q = quote_json(paths[i].as_str());
                proof {
                    let next = all.take(i as int + 1);
                    assert(next.drop_last() =~= all.take(i as int));
                    assert(next.last() == paths[i as int]@);
                }
                if i > 0 {
                    r.append(",");
                }
                r.append(q.as_str());
                i = i + 1;
            }
            assert(all.take(paths.len() as int) =~= all);
            r.append("]");
            r.append(",\"success\":true}");
            proof {
                reveal_strlit("{\"data\":[");
                reveal_strlit("{\"data\":");
                reveal_strlit("[");
                assert(r@ =~= selected("["@ + quoted_list(all) + "]"@));
            }
            r
        },
        None => String::from_str("{\"success\":false}"),
    }
}

} // verus!
