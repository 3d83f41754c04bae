use ghrs::relation::{holds_word, written_relations};

fn letters(text: &str) -> Vec<char> {
    text.chars().collect()
}

fn relations_of(header: &str) -> Vec<Option<String>> {
    written_relations(header).into_iter().map(|r| r.map(|v| v.into_iter().collect())).collect()
}

fn value(text: &str) -> Option<String> {
    Some(text.to_string())
}

#[test]
fn written_relations_of_the_usual_header() {
    let header = "<https://api.example.com/x?page=2>; rel=\"next\", <https://api.example.com/x?page=0>; rel=\"prev\"";
    assert_eq!(relations_of(header), vec![value("\"next\""), value("\"prev\"")]);
}

#[test]
fn written_relations_keep_the_case_that_was_written() {
    assert_eq!(relations_of("<u>; rel=\"NEXT\""), vec![value("\"NEXT\"")]);
    assert_eq!(relations_of("<u>; rel=Next"), vec![value("Next")]);
}

#[test]
fn written_relations_of_an_entry_without_parameter() {
    assert_eq!(relations_of("<u>"), vec![None]);
    assert_eq!(relations_of("<u>, <v>; rel=\"next\""), vec![None, value("\"next\"")]);
    assert_eq!(relations_of("<u>; title=\"t\""), vec![None]);
    assert_eq!(relations_of(""), Vec::<Option<String>>::new());
    assert_eq!(relations_of("rel=\"next\""), Vec::<Option<String>>::new());
}

#[test]
fn written_relations_take_the_first_rel_parameter() {
    assert_eq!(relations_of("<u>; rel=\"a\"; rel=\"b\""), vec![value("\"a\"")]);
    assert_eq!(relations_of("<u>; title=x; rel=a b; type=y"), vec![value("a b")]);
}

#[test]
fn written_relations_find_the_parameter_name_in_either_case() {
    assert_eq!(relations_of("<u>; REL=\"next\""), vec![value("\"next\"")]);
    assert_eq!(relations_of("<u>;  \tRel \t=\"next\""), vec![value("\"next\"")]);
    assert_eq!(relations_of("<u>; rev=\"next\""), vec![None]);
    assert_eq!(relations_of("<u>; rel2=\"next\""), vec![None]);
    assert_eq!(relations_of("<u>; xrel=\"next\""), vec![None]);
    assert_eq!(relations_of("<u>; rel"), vec![value("")]);
    assert_eq!(relations_of("<u>; rel="), vec![value("")]);
    assert_eq!(relations_of("<u>; rel=a=b"), vec![value("a=b")]);
}

#[test]
fn segments_are_not_cut_inside_quotes() {
    assert_eq!(relations_of("<u>; title=\"a; rel=next, <v>\"; rel=\"last\""), vec![value("\"last\"")]);
    assert_eq!(relations_of("<u>; rel=\"next, prev; x\""), vec![value("\"next, prev; x\"")]);
    assert_eq!(relations_of("<u>; rel=\"next, <v>; rel=\"prev\""), vec![value("\"next, <v>; rel=\"prev\"")]);
}

#[test]
fn every_target_opens_an_entry() {
    assert_eq!(relations_of("  <u>; rel=a,\t<v>;rel=b,<w>"), vec![value("a"), value("b"), None]);
    assert_eq!(relations_of("<u>;;, ;rel=a"), vec![value("a")]);
}

#[test]
fn holds_word_reads_whole_words_letter_by_letter() {
    let next = letters("next");
    assert!(holds_word(&letters("next"), &next));
    assert!(holds_word(&letters("\"next\""), &next));
    assert!(holds_word(&letters("\"prev next\""), &next));
    assert!(holds_word(&letters("\"next last\""), &next));
    assert!(holds_word(&letters(" next\t"), &next));
    assert!(holds_word(&letters("first  next  last"), &next));
    assert!(!holds_word(&letters("NEXT"), &next));
    assert!(!holds_word(&letters("\"Next\""), &next));
    assert!(!holds_word(&letters("nexT"), &next));
    assert!(!holds_word(&letters("nextt"), &next));
    assert!(!holds_word(&letters("anext"), &next));
    assert!(!holds_word(&letters("next-archive"), &next));
    assert!(!holds_word(&letters("nex"), &next));
    assert!(!holds_word(&letters("n e x t"), &next));
    assert!(!holds_word(&letters(""), &next));
    assert!(holds_word(&letters("anext next"), &next));
    assert!(holds_word(&letters("nextt next"), &next));
}

#[test]
fn holds_word_with_other_names() {
    assert!(holds_word(&letters("\"prev\""), &letters("prev")));
    assert!(!holds_word(&letters("\"previous\""), &letters("prev")));
    assert!(!holds_word(&letters("\"prev-archive\""), &letters("prev")));
    assert!(holds_word(&letters("a"), &letters("a")));
    assert!(!holds_word(&letters("a"), &letters("ab")));
}
