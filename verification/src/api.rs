use vstd::prelude::*;
use crate::classifier::{parse_text, spec_classify};
use crate::store::VibeStore;
use crate::vibe::{Vibe, VibeCheck};
use crate::view::{current_view, view_matches, ViewResult};

verus! {

/// Read the current record and derive the visible answer for the moment
/// `now`. The answer always renders one complete stored record: its label,
/// detail and timestamp all come from the same write, whatever concurrent
/// writers are doing.
pub fn get_current_view(store: &VibeStore, now: i64) -> (r: ViewResult)
    ensures
        exists|rec: VibeCheck| view_matches(rec, now as int, r),
{
    let rec = store.read();
    let r = current_view(&rec, now);
    proof {
        assert(view_matches(rec, now as int, r));
    }
    r
}

/// Manual override: store the given classification, stamped with the moment
/// `now`.
pub fn set_classification(store: &VibeStore, vibe: Vibe, now: i64)
    requires
        store.wf(),
{
    store.write(vibe, now);
}

/// Classify a free-form text, store the result stamped with the moment `now`,
/// and hand back the short label of the classification that was stored.
pub fn classify_and_set(store: &VibeStore, text: &str, now: i64) -> (label: String)
    requires
        store.wf(),
    ensures
        label@ == spec_classify(text@).short_spec(),
{
    let vibe = parse_text(text);
    store.write(vibe, now);
    vibe.short()
}

} // verus!
