use fast_dbc_to_c::names::{name_filter, sanitize};

#[test]
fn letters_digits_and_underscores_pass() {
    for c in ['a', 'Z', '0', '9', '_', 'é', 'ß', '٣', '中'] {
        assert_eq!(name_filter(c), c);
    }
}

#[test]
fn every_other_character_becomes_an_underscore() {
    for c in [' ', '-', '.', '/', '%', '"', '\n', '\t', '(', '€', '\u{0}'] {
        assert_eq!(name_filter(c), '_');
    }
}

#[test]
fn sanitize_replaces_character_by_character() {
    assert_eq!(sanitize("Engine Speed-1"), "Engine_Speed_1");
    assert_eq!(sanitize("Drive.Train"), "Drive_Train");
    assert_eq!(sanitize("a--b"), "a__b");
    assert_eq!(sanitize("RPM"), "RPM");
    assert_eq!(sanitize("already_fine_42"), "already_fine_42");
    assert_eq!(sanitize("°C ß"), "_C_ß");
}

#[test]
fn sanitize_keeps_the_number_of_characters() {
    for name in ["", "a", "a b c", "***", "Größe (mm)"] {
        assert_eq!(sanitize(name).chars().count(), name.chars().count());
    }
}

#[test]
fn sanitize_of_the_empty_name_is_empty() {
    assert_eq!(sanitize(""), "");
}

#[test]
fn sanitize_is_idempotent_on_examples() {
    for name in ["", "Engine", "Body Ctrl", "a-b.c/d", "__", "Größe (mm)", " \t\n"] {
        let once = sanitize(name);
        assert_eq!(sanitize(&once), once);
    }
}
