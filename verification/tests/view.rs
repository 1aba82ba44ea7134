use vibecheck::api::{classify_and_set, get_current_view, set_classification};
use vibecheck::store::VibeStore;
use vibecheck::vibe::{Vibe, VibeCheck};
use vibecheck::view::{current_view, view_for_days};

// 2021-10-26 23:59:59 in America/New_York (EDT), i.e. 2021-10-27 03:59:59 UTC.
const LATE_TUESDAY: i64 = 1635307199;
// Two seconds later: 2021-10-27 00:00:01 local, already the next calendar day.
const EARLY_WEDNESDAY: i64 = 1635307201;
// 2021-10-26 00:00:01 in America/New_York, i.e. 2021-10-26 04:00:01 UTC.
const EARLY_TUESDAY: i64 = 1635220801;

#[test]
fn expires_at_local_midnight_after_two_seconds() {
    let rec = VibeCheck { vibe: Vibe::BonesDay, time: LATE_TUESDAY };
    let r = current_view(&rec, EARLY_WEDNESDAY);
    assert_eq!(r.label, "Superposition");
    assert_eq!(
        r.detail,
        Some(
            "Noodles is fast asleep. Until measured, he simultaneously does and does not have bones."
                .to_string()
        )
    );
}

#[test]
fn fresh_for_almost_a_full_local_day() {
    let rec = VibeCheck { vibe: Vibe::BonesDay, time: EARLY_TUESDAY };
    let r = current_view(&rec, LATE_TUESDAY);
    assert_eq!(r.label, "Yes");
    assert_eq!(r.detail, None);
}

#[test]
fn renders_observation_time_in_reference_zone() {
    let rec = VibeCheck { vibe: Vibe::NoBonesDay, time: LATE_TUESDAY };
    let r = current_view(&rec, LATE_TUESDAY);
    assert_eq!(r.observed_local, "Tue Oct 26 23:59:59 EDT");
    assert_eq!(r.label, "No");
}

#[test]
fn stale_view_keeps_the_observation_time() {
    let rec = VibeCheck { vibe: Vibe::NoReading, time: EARLY_TUESDAY };
    let r = current_view(&rec, EARLY_WEDNESDAY);
    assert_eq!(r.label, "Superposition");
    assert_eq!(r.observed_local, "Tue Oct 26 00:00:01 EDT");
}

#[test]
fn view_for_days_decides_by_day_equality_alone() {
    let fresh = view_for_days(Vibe::NoReading, "when".to_string(), 10, 10);
    assert_eq!(fresh.label, "No Reading");
    assert_eq!(fresh.detail, Some("Noodles is taking a break today".to_string()));
    assert_eq!(fresh.observed_local, "when");
    let stale = view_for_days(Vibe::NoReading, "when".to_string(), 10, 11);
    assert_eq!(stale.label, "Superposition");
}

#[test]
fn classify_and_set_stores_and_labels() {
    let store = VibeStore::new();
    let label = classify_and_set(&store, "it is a no bones day", EARLY_TUESDAY);
    assert_eq!(label, "No");
    assert_eq!(store.read(), VibeCheck { vibe: Vibe::NoBonesDay, time: EARLY_TUESDAY });
}

#[test]
fn manual_override_is_stored() {
    let store = VibeStore::new();
    set_classification(&store, Vibe::NoReading, 42);
    assert_eq!(store.read(), VibeCheck { vibe: Vibe::NoReading, time: 42 });
}

#[test]
fn fresh_record_is_served() {
    let store = VibeStore::new();
    set_classification(&store, Vibe::BonesDay, EARLY_TUESDAY);
    let r = get_current_view(&store, LATE_TUESDAY);
    assert_eq!(r.label, "Yes");
}

#[test]
fn sentinel_record_is_stale() {
    let store = VibeStore::new();
    let r = get_current_view(&store, LATE_TUESDAY);
    assert_eq!(r.label, "Superposition");
}
