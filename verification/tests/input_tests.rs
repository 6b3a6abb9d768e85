use wordle_cli::lang::locale::replace_unicode;
use wordle_core::input::accept_guess;
use wordle_core::input::normalize_guess;
use wordle_core::input::validate_user_input;

#[test]
fn test_validate_user_input() {
    assert!(validate_user_input(
        replace_unicode("schön", "de").as_str(), 6
    ));

    assert!(validate_user_input(
        replace_unicode("schön", "en").as_str(), 5
    ));

    assert!(validate_user_input(
        replace_unicode("lüge", "de").as_str(), 5
    ));

    assert!(validate_user_input(
        replace_unicode("lüge", "en").as_str(), 4
    ));

    assert!(validate_user_input(
        replace_unicode("howdy", "de").as_str(), 5
    ));

    assert!(validate_user_input(
        replace_unicode("howdy", "en").as_str(), 5
    ));

    assert!(validate_user_input(
        replace_unicode("wölfe", "de").as_str(), 6
    ));

    assert!(validate_user_input(
        replace_unicode("wölfe", "en").as_str(), 5
    ));
}

#[test]
fn validate_counts_characters() {
    assert!(validate_user_input("crane", 5));
    assert!(!validate_user_input("cran", 5));
    assert!(!validate_user_input("cranes", 5));
    assert!(validate_user_input("", 0));
}

#[test]
fn normalize_lowercases_the_input() {
    assert_eq!(normalize_guess("CRANE", "en"), "crane");
}

#[test]
fn normalize_trims_surrounding_whitespace() {
    assert_eq!(normalize_guess("  crane \n", "en"), "crane");
}

#[test]
fn normalize_folds_locale_characters() {
    assert_eq!(normalize_guess("schön", "de"), "schoen");
    assert_eq!(normalize_guess("schön", "en"), "schon");
}

#[test]
fn normalize_lowercases_before_folding() {
    assert_eq!(normalize_guess(" SCHÖN ", "de"), "schoen");
}

#[test]
fn accept_guess_takes_matching_length_only() {
    assert_eq!(accept_guess("crane\n", "en", 5), Some(String::from("crane")));
    assert_eq!(accept_guess("cran", "en", 5), None);
    assert_eq!(accept_guess("cranes", "en", 5), None);
}

#[test]
fn accept_guess_measures_the_folded_form() {
    assert_eq!(accept_guess("schön", "de", 6), Some(String::from("schoen")));
    assert_eq!(accept_guess("schön", "de", 5), None);
    assert_eq!(accept_guess("schön", "en", 5), Some(String::from("schon")));
}
