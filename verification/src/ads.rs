use vstd::prelude::*;
use crate::text::str_eq;

verus! {

/// One entry of the result list that the ad provider hands back, as
/// decoded from its JSON.
#[derive(Debug)]
pub struct JsResult {
    pub kind: String,
    pub slot: Option<String>,
    pub placement: Option<String>,
    pub reason: Option<String>,
}

/// What a finished ad request came to.
#[derive(Debug)]
pub enum AdResult {
    Watched { slot: String },
    Skipped { slot: String },
    Shown { placement: String },
    Failed { slot: String, reason: String },
}

/// A view of `AdResult` over character sequences.
pub enum AdResultView {
    Watched { slot: Seq<char> },
    Skipped { slot: Seq<char> },
    Shown { placement: Seq<char> },
    Failed { slot: Seq<char>, reason: Seq<char> },
}

impl AdResult {
    pub open spec fn view(&self) -> AdResultView {
        match self {
            AdResult::Watched { slot } => AdResultView::Watched { slot: slot@ },
            AdResult::Skipped { slot } => AdResultView::Skipped { slot: slot@ },
            AdResult::Shown { placement } => AdResultView::Shown { placement: placement@ },
            AdResult::Failed { slot, reason } => AdResultView::Failed { slot: slot@, reason: reason@ },
        }
    }
}

/// A missing optional text reads as the empty string.
pub open spec fn text_or_empty(o: Option<String>) -> Seq<char> {
    match o {
        Some(s) => s@,
        None => Seq::empty(),
    }
}

/// What one raw result means; `None` for a kind that is not known (it is
/// dropped).
pub open spec fn classify(r: JsResult) -> Option<AdResultView> {
    if r.kind@ == "watched"@ {
        Some(AdResultView::Watched { slot: text_or_empty(r.slot) })
    } else if r.kind@ == "skipped"@ {
        Some(AdResultView::Skipped { slot: text_or_empty(r.slot) })
    } else if r.kind@ == "shown"@ {
        Some(AdResultView::Shown { placement: text_or_empty(r.placement) })
    } else if r.kind@ == "failed"@ {
        Some(AdResultView::Failed { slot: text_or_empty(r.slot), reason: text_or_empty(r.reason) })
    } else {
        None
    }
}

/// Each result kind keeps the fields it is about and no others: a watched
/// or skipped result carries the slot, a shown one the placement, a failed
/// one the slot and the reason (a missing text reads as empty); unknown
/// kinds are dropped; and the outcome never depends on a field the kind
/// does not carry.
pub proof fn lemma_classify_fields(r: JsResult, q: JsResult)
    ensures
        r.kind@ == "watched"@ ==> classify(r) == Some(AdResultView::Watched { slot: text_or_empty(r.slot) }),
        r.kind@ == "skipped"@ ==> classify(r) == Some(AdResultView::Skipped { slot: text_or_empty(r.slot) }),
        r.kind@ == "shown"@ ==> classify(r) == Some(AdResultView::Shown { placement: text_or_empty(r.placement) }),
        r.kind@ == "failed"@ ==> classify(r) == Some(AdResultView::Failed {
            slot: text_or_empty(r.slot),
            reason: text_or_empty(r.reason),
        }),
        r.kind@ != "watched"@ && r.kind@ != "skipped"@ && r.kind@ != "shown"@ && r.kind@ != "failed"@
            ==> classify(r) is None,
        r.kind@ == q.kind@ && text_or_empty(r.slot) == text_or_empty(q.slot)
            && text_or_empty(r.placement) == text_or_empty(q.placement)
            && text_or_empty(r.reason) == text_or_empty(q.reason) ==> classify(r) == classify(q),
{
    reveal_strlit("watched");
    reveal_strlit("skipped");
    reveal_strlit("shown");
    reveal_strlit("failed");
    assert("watched"@[0] != "skipped"@[0] && "watched"@[0] != "shown"@[0] && "watched"@[0] != "failed"@[0]);
    assert("skipped"@[1] != "shown"@[1] && "skipped"@[0] != "failed"@[0]);
    assert("shown"@[0] != "failed"@[0]);
}

fn take_or_empty(o: Option<String>) -> (r: String)
    ensures
        r@ == text_or_empty(o),
{
    match o {
        Some(s) => s,
        None => String::new(),
    }
}

fn classify_one(r: JsResult) -> (out: Option<AdResult>)
    ensures
        match out {
            Some(a) => classify(r) == Some(a.view()),
            None => classify(r) is None,
        },
{
    let JsResult { kind, slot, placement, reason } = r;
    if str_eq(kind.as_str(), "watched") {
        Some(AdResult::Watched { slot: take_or_empty(slot) })
    } else if str_eq(kind.as_str(), "skipped") {
        Some(AdResult::Skipped { slot: take_or_empty(slot) })
    } else if str_eq(kind.as_str(), "shown") {
        Some(AdResult::Shown { placement: take_or_empty(placement) })
    } else if str_eq(kind.as_str(), "failed") {
        Some(AdResult::Failed { slot: take_or_empty(slot), reason: take_or_empty(reason) })
    } else {
        None
    }
}

/// The ad results for a batch of raw results, in order, with entries of
/// unknown kind left out.
pub fn classify_results(raw: Vec<JsResult>) -> (out: Vec<AdResult>)
    ensures
        out@.map_values(|a: AdResult| a.view()) == raw@.filter_map(|r: JsResult| classify(r)),
{
    let ghost all = raw@;
    let mut raw = raw;
    let mut out: Vec<AdResult> = Vec::new();
    let n = raw.len();
    let mut i: usize = 0;
    while i < n
        invariant
            i <= n,
            n == all.len(),
            raw@ == all.subrange(i as int, n as int),
            out@.map_values(|a: AdResult| a.view()) == all.take(i as int).filter_map(|r: JsResult| classify(r)),
        decreases n - i,
    {
        let ghost before = out@.map_values(|a: AdResult| a.view());
        let r = raw.remove(0);
        proof {
            assert(r == all[i as int]);
            assert(all.take(i + 1).drop_last() =~= all.take(i as int));
            assert(all.take(i + 1).last() == r);
        }
        match classify_one(r) {
            Some(a) => {
                out.push(a);
                proof {
                    assert(out@.map_values(|a: AdResult| a.view()) =~= before + seq![a.view()]);
                }
            },
            None => {},
        }
        proof {
            assert(raw@ =~= all.subrange(i + 1, n as int));
        }
        i = i + 1;
    }
    proof {
        assert(all.take(n as int) =~= all);
    }
    out
}

/// Whether the provider's drained text holds any results at all: the
/// empty list "[]" and the empty string mean none.
pub fn results_pending(raw: &str) -> (r: bool)
    ensures
        r == !(raw@ == "[]"@ || raw@.len() == 0),
{
    !(str_eq(raw, "[]") || raw.is_empty())
}

} // verus!
