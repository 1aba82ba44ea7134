use vibecheck::classifier::parse_text;
use vibecheck::vibe::Vibe;

#[test]
fn explicit_skip_wins_over_everything() {
    assert_eq!(
        parse_text("no reading today, even though it is a bones day and a no bones day"),
        Vibe::NoReading
    );
}

#[test]
fn explicit_skip_alternate_phrase() {
    assert_eq!(parse_text("There is no new reading for today"), Vibe::NoReading);
}

#[test]
fn negative_beats_positive() {
    assert_eq!(parse_text("it is a no bones day"), Vibe::NoBonesDay);
}

#[test]
fn negative_phrasings() {
    assert_eq!(parse_text("Noodles does not have bones today"), Vibe::NoBonesDay);
    assert_eq!(parse_text("sadly, not a bones day"), Vibe::NoBonesDay);
}

#[test]
fn positive_alone() {
    assert_eq!(parse_text("Noodles has bones today"), Vibe::BonesDay);
}

#[test]
fn nothing_matches_is_indeterminate() {
    assert_eq!(parse_text("good morning everyone"), Vibe::Error);
    assert_eq!(parse_text(""), Vibe::Error);
}

#[test]
fn case_insensitive() {
    assert_eq!(parse_text("BONES DAY"), parse_text("bones day"));
    assert_eq!(parse_text("BONES DAY"), Vibe::BonesDay);
    assert_eq!(parse_text("No BoNeS"), Vibe::NoBonesDay);
}

#[test]
fn hashtag_keywords() {
    assert_eq!(parse_text("#BonesDay"), Vibe::BonesDay);
    assert_eq!(parse_text("#NoBonesDay"), Vibe::NoBonesDay);
}

#[test]
fn short_labels() {
    assert_eq!(Vibe::BonesDay.short(), "Yes");
    assert_eq!(Vibe::NoBonesDay.short(), "No");
    assert_eq!(Vibe::NoReading.short(), "No Reading");
    assert_eq!(Vibe::Error.short(), "Error");
}

#[test]
fn long_details() {
    assert_eq!(Vibe::BonesDay.long(), None);
    assert_eq!(Vibe::NoBonesDay.long(), None);
    assert_eq!(
        Vibe::NoReading.long(),
        Some("Noodles is taking a break today".to_string())
    );
    assert_eq!(
        Vibe::Error.long(),
        Some("The server had trouble making sense of today's tweet".to_string())
    );
}
