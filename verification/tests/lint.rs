use chatcore::lint::{
    abbreviation_replacements, replacement_phrase, split_by_case, Case, EmittedStatus,
};

fn chars(text: &str) -> Vec<char> {
    text.chars().collect()
}

fn text_of(v: &[char]) -> String {
    v.iter().collect()
}

fn words(segments: &[(usize, Vec<char>)]) -> Vec<(usize, String)> {
    segments.iter().map(|(at, w)| (*at, text_of(w))).collect()
}

#[test]
fn nothing_emitted_at_the_start() {
    let status = EmittedStatus::default();
    assert!(!status.warned);
    assert!(!status.errored);
}

#[test]
fn snake_case_splits_at_underscores() {
    let segments = split_by_case(&chars("foo_bar_baz"), Case::Snake);
    assert_eq!(
        words(&segments),
        vec![(0, "foo".to_string()), (4, "bar".to_string()), (8, "baz".to_string())]
    );
}

#[test]
fn snake_case_keeps_inner_empty_words_and_drops_a_trailing_one() {
    let doubled = split_by_case(&chars("a__b"), Case::Snake);
    assert_eq!(
        words(&doubled),
        vec![(0, "a".to_string()), (2, "".to_string()), (3, "b".to_string())]
    );

    let trailing = split_by_case(&chars("x_"), Case::Snake);
    assert_eq!(words(&trailing), vec![(0, "x".to_string())]);
}

#[test]
fn pascal_case_splits_at_capitals_and_lowers() {
    let segments = split_by_case(&chars("FooBarBaz"), Case::Pascal);
    assert_eq!(
        words(&segments),
        vec![(0, "foo".to_string()), (3, "bar".to_string()), (6, "baz".to_string())]
    );

    let leading_lower = split_by_case(&chars("fooBar"), Case::Pascal);
    assert_eq!(words(&leading_lower), vec![(0, "foo".to_string()), (3, "bar".to_string())]);
}

#[test]
fn single_word_identifiers_stay_whole() {
    assert_eq!(words(&split_by_case(&chars("plain"), Case::Snake)), vec![(0, "plain".to_string())]);
    assert_eq!(words(&split_by_case(&chars("Type"), Case::Pascal)), vec![(0, "type".to_string())]);
    assert!(split_by_case(&chars(""), Case::Snake).is_empty());
}

#[test]
fn known_abbreviations_are_recognised() {
    let msg = abbreviation_replacements(&chars("msg")).expect("msg is an abbreviation");
    assert_eq!(msg.iter().map(|w| text_of(w)).collect::<Vec<_>>(), vec!["message"]);

    let beg = abbreviation_replacements(&chars("beg")).expect("beg is an abbreviation");
    assert_eq!(
        beg.iter().map(|w| text_of(w)).collect::<Vec<_>>(),
        vec!["begin", "beginning"]
    );

    assert!(abbreviation_replacements(&chars("hello")).is_none());
    assert!(abbreviation_replacements(&chars("")).is_none());
}

#[test]
fn one_replacement_is_quoted_alone() {
    let phrase = replacement_phrase(&vec![chars("message")], Case::Snake);
    assert_eq!(text_of(&phrase), "`message`");
}

#[test]
fn pascal_suggestions_are_capitalised() {
    let phrase = replacement_phrase(&vec![chars("message")], Case::Pascal);
    assert_eq!(text_of(&phrase), "`Message`");
}

#[test]
fn two_replacements_are_joined_with_or() {
    let phrase = replacement_phrase(&vec![chars("begin"), chars("beginning")], Case::Snake);
    assert_eq!(text_of(&phrase), "`begin` or `beginning`");
}

#[test]
fn many_replacements_use_commas_and_a_final_or() {
    let phrase =
        replacement_phrase(&vec![chars("alpha"), chars("beta"), chars("gamma")], Case::Snake);
    assert_eq!(text_of(&phrase), "`alpha`, `beta` or `gamma`");

    let four = replacement_phrase(
        &vec![chars("a"), chars("b"), chars("c"), chars("d")],
        Case::Pascal,
    );
    assert_eq!(text_of(&four), "`A`, `B`, `C` or `D`");
}
