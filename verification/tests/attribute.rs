use umami::attribute::{find_value_end, Attribute, Found};

fn chars(s: &str) -> Vec<char> {
    s.chars().collect()
}

fn src() -> Attribute {
    Attribute::new("src=", "", false)
}

fn field() -> Attribute {
    Attribute::new("name=\"id\" value=", "", true)
}

#[test]
fn new_keeps_lead_stem_and_quotes() {
    let a = Attribute::new("href=", "/sites/", true);
    assert_eq!(a.lead, chars("href="));
    assert_eq!(a.stem, chars("/sites/"));
    assert!(a.single);
    let b = Attribute::new("", "", false);
    assert!(b.lead.is_empty() && b.stem.is_empty() && !b.single);
}

#[test]
fn value_ends_at_the_first_quote() {
    let text = chars("abc\"def\"");
    assert_eq!(find_value_end(&text, 0, false), Some(3));
    assert_eq!(find_value_end(&text, 3, false), Some(3));
    assert_eq!(find_value_end(&text, 4, false), Some(7));
    assert_eq!(find_value_end(&text, 8, false), None);
    assert_eq!(find_value_end(&text, 100, false), None);
}

#[test]
fn value_does_not_run_over_a_line_break() {
    assert_eq!(find_value_end(&chars("ab\ncd\""), 0, false), None);
    assert_eq!(find_value_end(&chars("ab\ncd\""), 3, false), Some(5));
    assert_eq!(find_value_end(&chars("ab\rcd\""), 0, false), Some(5));
    assert_eq!(find_value_end(&chars("abcd"), 0, false), None);
}

#[test]
fn single_quote_ends_a_value_only_where_admitted() {
    let text = chars("it's \"x\"");
    assert_eq!(find_value_end(&text, 0, false), Some(5));
    assert_eq!(find_value_end(&text, 0, true), Some(2));
}

#[test]
fn match_end_wants_lead_quote_and_stem_at_the_index() {
    let text = chars("<img src=\"/a.png\">");
    assert_eq!(src().match_end(&text, 5), Some(16));
    assert_eq!(src().match_end(&text, 4), None);
    assert_eq!(src().match_end(&text, 6), None);
    assert_eq!(src().match_end(&text, 500), None);
    let single = chars("src='/a.png'");
    assert_eq!(src().match_end(&single, 0), None);
    let css = Attribute::new("href=", "/css/", false);
    assert_eq!(css.match_end(&chars("href=\"/css/a\""), 0), Some(12));
    assert_eq!(css.match_end(&chars("href=\"/css/\""), 0), Some(11));
    assert_eq!(css.match_end(&chars("href=\"/css\""), 0), None);
    assert_eq!(css.match_end(&chars("href=\"/js/a\""), 0), None);
}

#[test]
fn match_end_at_the_end_of_the_text() {
    assert_eq!(src().match_end(&chars("src="), 0), None);
    assert_eq!(src().match_end(&chars("src=\""), 0), None);
    assert_eq!(src().match_end(&chars("src=\"\""), 0), Some(5));
    assert_eq!(src().match_end(&chars(""), 0), None);
}

#[test]
fn next_match_is_the_leftmost_from_the_start_given() {
    let text = chars("src=\"a\" src=\"b\"");
    assert_eq!(src().next_match(&text, 0), Some(Found { at: 0, end: 6 }));
    assert_eq!(src().next_match(&text, 1), Some(Found { at: 8, end: 14 }));
    assert_eq!(src().next_match(&text, 8), Some(Found { at: 8, end: 14 }));
    assert_eq!(src().next_match(&text, 9), None);
    assert_eq!(src().next_match(&text, 1000), None);
}

#[test]
fn matches_do_not_overlap() {
    let text = chars("src=\"x src=\"y\" src=\"z\"");
    assert_eq!(
        src().matches(&text),
        vec![Found { at: 0, end: 11 }, Found { at: 15, end: 21 }]
    );
    assert_eq!(src().values("src=\"x src=\"y\" src=\"z\""), vec!["x src=", "z"]);
}

#[test]
fn a_match_that_fails_on_its_line_does_not_hide_the_next() {
    let html = "src=\"one\ntwo src=\"three\"";
    assert_eq!(src().values(html), vec!["three"]);
    assert_eq!(src().matches(&chars(html)), vec![Found { at: 13, end: 23 }]);
}

#[test]
fn values_keep_duplicates_and_order() {
    let html = "src=\"b\" src=\"a\" src=\"b\" src=\"\"";
    assert_eq!(src().values(html), vec!["b", "a", "b", ""]);
    assert_eq!(src().first_value(html), Some("b".to_string()));
}

#[test]
fn values_of_a_text_without_a_match() {
    assert_eq!(src().values(""), Vec::<String>::new());
    assert_eq!(src().values("src='a' SRC=\"b\" src =\"c\""), Vec::<String>::new());
    assert_eq!(src().first_value("src="), None);
    assert_eq!(src().matches(&chars("no attribute")), Vec::<Found>::new());
}

#[test]
fn values_may_hold_characters_beyond_ascii() {
    let html = "«é» src=\"/sites/ñandú.png\" título=\"Guía\"";
    assert_eq!(src().values(html), vec!["/sites/ñandú.png"]);
    assert_eq!(src().matches(&chars(html)), vec![Found { at: 4, end: 25 }]);
}

#[test]
fn the_stem_is_part_of_the_value() {
    let css = Attribute::new("href=", "/sites/default/files/css/", false);
    let html = "<link href=\"/sites/default/files/css/css_1.css?q\"><link href=\"/core/x.css\">";
    assert_eq!(css.values(html), vec!["/sites/default/files/css/css_1.css?q"]);
}

#[test]
fn either_quote_opens_and_closes_where_single_is_admitted() {
    assert_eq!(field().first_value("name=\"id\" value=\"t1\""), Some("t1".to_string()));
    assert_eq!(field().first_value("name=\"id\" value='t2'"), Some("t2".to_string()));
    assert_eq!(field().first_value("name=\"id\" value='t3\""), Some("t3".to_string()));
    assert_eq!(field().first_value("name=\"id\" value=\"it's\""), Some("it".to_string()));
    assert_eq!(field().first_value("name=\"id\" value=t4"), None);
    assert_eq!(field().first_value("name='id' value='t5'"), None);
}

#[test]
fn written_attribute_is_the_first_value_and_the_rest_follows() {
    let before = "<p>text</p>";
    let after = " <img src=\"/core/b.png\"> src=\"c\"";
    let html = format!("{}src=\"{}\"{}", before, "/sites/a.png", after);
    let mut expected = vec!["/sites/a.png".to_string()];
    expected.extend(src().values(after));
    assert_eq!(src().values(&html), expected);
    assert_eq!(src().values(&html), vec!["/sites/a.png", "/core/b.png", "c"]);
    assert_eq!(src().first_value(&html), Some("/sites/a.png".to_string()));
}
