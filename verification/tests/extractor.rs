use completion_gateway::extractor::{
    extract, find_completion, first_choice_of, shapes_by_precedence, Shape,
};
use completion_gateway::json::Json;

fn doc(text: &str) -> Json {
    Json::parse(text.as_bytes()).unwrap()
}

#[test]
fn response_member_is_trimmed() {
    assert_eq!(extract(&doc("{\"response\": \"foo  \"}")), "foo");
}

#[test]
fn response_member_is_found_among_others() {
    let json = doc("{\"model\": \"m\", \"response\": \"  ls -la\\n\", \"done\": true}");
    assert_eq!(extract(&json), "ls -la");
}

#[test]
fn text_member_is_returned() {
    assert_eq!(extract(&doc("{\"text\": \"bar\"}")), "bar");
    assert_eq!(extract(&doc("{\"text\": \" bar \"}")), "bar");
}

#[test]
fn response_comes_before_text() {
    assert_eq!(extract(&doc("{\"response\": \"r\", \"text\": \"t\"}")), "r");
    assert_eq!(extract(&doc("{\"text\": \"t\", \"response\": \"r\"}")), "r");
}

#[test]
fn response_that_is_no_string_is_passed_over() {
    assert_eq!(extract(&doc("{\"response\": 5, \"text\": \"t\"}")), "t");
    assert_eq!(extract(&doc("{\"response\": null, \"text\": \"t\"}")), "t");
}

#[test]
fn first_choice_text_is_returned() {
    assert_eq!(extract(&doc("{\"choices\": [{\"text\": \"baz\"}]}")), "baz");
    assert_eq!(
        extract(&doc("{\"choices\": [{\"text\": \" one \"}, {\"text\": \"two\"}]}")),
        "one"
    );
}

#[test]
fn first_choice_message_content_is_returned() {
    assert_eq!(
        extract(&doc("{\"choices\": [{\"message\": {\"content\": \"qux\"}}]}")),
        "qux"
    );
    assert_eq!(
        extract(&doc("{\"choices\": [{\"message\": {\"role\": \"a\", \"content\": \"qux \\n\"}}]}")),
        "qux"
    );
}

#[test]
fn choice_text_comes_before_message_content() {
    let json = doc("{\"choices\": [{\"message\": {\"content\": \"m\"}, \"text\": \"t\"}]}");
    assert_eq!(extract(&json), "t");
}

#[test]
fn top_level_text_comes_before_choices() {
    let json = doc("{\"choices\": [{\"text\": \"c\"}], \"text\": \"t\"}");
    assert_eq!(extract(&json), "t");
}

#[test]
fn unknown_shape_is_handed_back_as_json() {
    assert_eq!(extract(&doc("{\"foo\": 1}")), "{\"foo\":1}");
    assert_eq!(extract(&doc("{\"b\": [true, null], \"a\": \"x\"}")), "{\"a\":\"x\",\"b\":[true,null]}");
}

#[test]
fn documents_that_are_no_objects_are_handed_back_as_json() {
    assert_eq!(extract(&doc("\"  plain  \"")), "\"  plain  \"");
    assert_eq!(extract(&doc("[1, 2]")), "[1,2]");
    assert_eq!(extract(&doc("null")), "null");
    assert_eq!(extract(&doc("12.5")), "12.5");
}

#[test]
fn choices_of_another_kind_match_nothing() {
    let samples = [
        "{\"choices\": []}",
        "{\"choices\": {\"0\": {\"text\": \"x\"}}}",
        "{\"choices\": [\"text\"]}",
        "{\"choices\": [{\"text\": 1}]}",
        "{\"choices\": [{\"message\": \"content\"}]}",
        "{\"choices\": [{\"message\": {\"content\": null}}]}",
        "{\"choices\": [{}, {\"text\": \"second\"}]}",
    ];
    for sample in samples {
        let json = doc(sample);
        assert_eq!(find_completion(&json), None, "{}", sample);
        assert_eq!(extract(&json), json.to_text(), "{}", sample);
    }
}

#[test]
fn find_completion_tells_a_match_from_none() {
    assert_eq!(find_completion(&doc("{\"response\": \"  \"}")), Some(String::new()));
    assert_eq!(find_completion(&doc("{\"text\": \" a \"}")), Some("a".to_string()));
    assert_eq!(find_completion(&doc("{\"foo\": 1}")), None);
    assert_eq!(find_completion(&Json::Null), None);
}

#[test]
fn empty_completion_is_a_completion() {
    assert_eq!(extract(&doc("{\"response\": \"\"}")), "");
    assert_eq!(extract(&doc("{\"response\": \" \\n \", \"text\": \"t\"}")), "");
}

#[test]
fn shapes_are_tried_in_a_fixed_order() {
    assert_eq!(
        shapes_by_precedence(),
        [Shape::Response, Shape::Text, Shape::ChoiceText, Shape::ChoiceMessage]
    );
}

#[test]
fn probe_reads_one_shape_only() {
    let json = doc(
        "{\"response\": \" r \", \"text\": \"t\", \"choices\": [{\"text\": \"ct\", \"message\": {\"content\": \"cm\"}}]}",
    );
    assert_eq!(Shape::Response.probe(&json), Some(" r "));
    assert_eq!(Shape::Text.probe(&json), Some("t"));
    assert_eq!(Shape::ChoiceText.probe(&json), Some("ct"));
    assert_eq!(Shape::ChoiceMessage.probe(&json), Some("cm"));
    let other = doc("{\"foo\": 1}");
    assert_eq!(Shape::Response.probe(&other), None);
    assert_eq!(Shape::Text.probe(&other), None);
    assert_eq!(Shape::ChoiceText.probe(&other), None);
    assert_eq!(Shape::ChoiceMessage.probe(&other), None);
}

#[test]
fn first_choice_is_the_first_element_of_choices() {
    let json = doc("{\"choices\": [1, 2]}");
    assert_eq!(first_choice_of(&json), Some(&Json::Number(serde_json::Number::from(1u64))));
    assert_eq!(first_choice_of(&doc("{\"choices\": []}")), None);
    assert_eq!(first_choice_of(&doc("{}")), None);
}

#[test]
fn extraction_is_repeatable() {
    let json = doc("{\"choices\": [{\"text\": \" again \"}]}");
    assert_eq!(extract(&json), extract(&json));
    let other = doc("{\"foo\": {\"bar\": [1, 2, 3]}}");
    assert_eq!(extract(&other), extract(&other));
}
