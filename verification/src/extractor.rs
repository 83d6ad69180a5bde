//! The response extractor: from whatever JSON document a backend answered
//! with to one completion string, by a fixed precedence of known shapes.

use crate::json::{compact_text, Json, JsonValue};
use crate::text::{trim, trimmed};
use vstd::prelude::*;

verus! {

/// A place where backends are known to put the completion text.
#[derive(Debug, Clone, Copy, PartialEq, Eq, Structural)]
pub enum Shape {
    /// The string member `response` of the document.
    Response,
    /// The string member `text` of the document.
    Text,
    /// The string member `text` of the first element of the array `choices`.
    ChoiceText,
    /// The string member `content` of the member `message` of the first
    /// element of the array `choices`.
    ChoiceMessage,
}

/// The first element of the array member `choices`.
pub open spec fn first_choice(doc: JsonValue) -> Option<JsonValue> {
    match doc.member("choices"@) {
        Some(choices) => choices.element(0),
        None => None,
    }
}

/// The text that `doc` holds in the place `shape`, if it holds one there.
pub open spec fn shaped_text(shape: Shape, doc: JsonValue) -> Option<Seq<char>> {
    match shape {
        Shape::Response => doc.text_member("response"@),
        Shape::Text => doc.text_member("text"@),
        Shape::ChoiceText => match first_choice(doc) {
            Some(choice) => choice.text_member("text"@),
            None => None,
        },
        Shape::ChoiceMessage => match first_choice(doc) {
            Some(choice) => match choice.member("message"@) {
                Some(message) => message.text_member("content"@),
                None => None,
            },
            None => None,
        },
    }
}

/// The order in which the shapes are tried.
pub open spec fn precedence() -> Seq<Shape> {
    seq![Shape::Response, Shape::Text, Shape::ChoiceText, Shape::ChoiceMessage]
}

/// The text of the first of `shapes` that `doc` matches.
pub open spec fn first_shaped(doc: JsonValue, shapes: Seq<Shape>) -> Option<Seq<char>>
    decreases shapes.len(),
{
    if shapes.len() == 0 {
        None
    } else {
        match shaped_text(shapes[0], doc) {
            Some(t) => Some(t),
            None => first_shaped(doc, shapes.drop_first()),
        }
    }
}

/// The text that `doc` holds in the first shape, by precedence, that it
/// matches; `None` where it matches none.
pub open spec fn found_text(doc: JsonValue) -> Option<Seq<char>> {
    first_shaped(doc, precedence())
}

/// The completion that `doc` stands for: the trimmed text of the first shape
/// it matches, or its whole compact JSON text where it matches none.
pub open spec fn completion(doc: JsonValue) -> Seq<char> {
    match found_text(doc) {
        Some(t) => trimmed(t),
        None => compact_text(doc),
    }
}

impl Shape {
    /// The text that `doc` holds in this place.
    pub fn probe<'a>(&self, doc: &'a Json) -> (found: Option<&'a str>)
        ensures
            match found {
                Some(s) => shaped_text(*self, doc@) == Some(s@),
                None => shaped_text(*self, doc@) is None,
            },
    {
        match self {
            Shape::Response => doc.get_str("response"),
            Shape::Text => doc.get_str("text"),
            Shape::ChoiceText => match first_choice_of(doc) {
                Some(choice) => choice.get_str("text"),
                None => None,
            },
            Shape::ChoiceMessage => match first_choice_of(doc) {
                Some(choice) => match choice.get("message") {
                    Some(message) => message.get_str("content"),
                    None => None,
                },
                None => None,
            },
        }
    }
}

/// The first element of the array member `choices` of `doc`.
pub fn first_choice_of(doc: &Json) -> (found: Option<&Json>)
    ensures
        match found {
            Some(choice) => first_choice(doc@) == Some(choice@),
            None => first_choice(doc@) is None,
        },
{
    match doc.get("choices") {
        Some(choices) => choices.at(0),
        None => None,
    }
}

/// The shapes in the order in which they are tried.
pub fn shapes_by_precedence() -> (shapes: [Shape; 4])
    ensures
        shapes@ == precedence(),
{
    let shapes = [Shape::Response, Shape::Text, Shape::ChoiceText, Shape::ChoiceMessage];
    assert(shapes@ =~= precedence());
    shapes
}

/// The trimmed text of the first shape, by precedence, that `doc` matches.
pub fn find_completion(doc: &Json) -> (found: Option<String>)
    ensures
        match found {
            Some(text) => found_text(doc@) is Some && text@ == trimmed(found_text(doc@)->0),
            None => found_text(doc@) is None,
        },
{
    let shapes = shapes_by_precedence();
    let mut i: usize = 0;
    assert(shapes@.subrange(0, 4) =~= shapes@);
    while i < 4
        invariant
            0 <= i <= 4,
            shapes@ == precedence(),
            found_text(doc@) == first_shaped(doc@, shapes@.subrange(i as int, 4)),
        decreases 4 - i,
    {
        let ghost rest = shapes@.subrange(i as int, 4);
        assert(rest[0] == shapes@[i as int]);
        assert(rest.drop_first() =~= shapes@.subrange(i + 1, 4));
        match shapes[i].probe(doc) {
            Some(text) => {
                return Some(trim(text));
            },
            None => {},
        }
        i += 1;
    }
    None
}

/// The completion that the backend's answer `doc` stands for. It never fails:
/// a document of no known shape is handed back whole, as its JSON text.
pub fn extract(doc: &Json) -> (text: String)
    ensures
        text@ == completion(doc@),
{
    match find_completion(doc) {
        Some(text) => text,
        None => doc.to_text(),
    }
}

/// The precedence written out: `response` before `text`, before the first
/// choice's `text`, before the first choice's `message.content`.
pub proof fn lemma_found_text_by_precedence(doc: JsonValue)
    ensures
        found_text(doc) == (if shaped_text(Shape::Response, doc) is Some {
            shaped_text(Shape::Response, doc)
        } else if shaped_text(Shape::Text, doc) is Some {
            shaped_text(Shape::Text, doc)
        } else if shaped_text(Shape::ChoiceText, doc) is Some {
            shaped_text(Shape::ChoiceText, doc)
        } else {
            shaped_text(Shape::ChoiceMessage, doc)
        }),
{
    let all = precedence();
    let from1 = all.drop_first();
    let from2 = from1.drop_first();
    let from3 = from2.drop_first();
    reveal_with_fuel(first_shaped, 5);
    assert(from1[0] == Shape::Text);
    assert(from2[0] == Shape::ChoiceText);
    assert(from3[0] == Shape::ChoiceMessage);
    assert(from3.drop_first().len() == 0);
}

/// A document with a string member `response` yields that string, trimmed,
/// whatever else it holds.
pub proof fn lemma_response_comes_first(doc: JsonValue, response: Seq<char>)
    requires
        doc.text_member("response"@) == Some(response),
    ensures
        completion(doc) == trimmed(response),
{
    lemma_found_text_by_precedence(doc);
}

/// A document without a string member `response` but with a string member
/// `text` yields that string, trimmed.
pub proof fn lemma_text_comes_second(doc: JsonValue, text: Seq<char>)
    requires
        doc.text_member("response"@) is None,
        doc.text_member("text"@) == Some(text),
    ensures
        completion(doc) == trimmed(text),
{
    lemma_found_text_by_precedence(doc);
}

/// A document with neither of the two top-level strings, whose first choice
/// has a string member `text`, yields that string, trimmed.
pub proof fn lemma_choice_text_comes_third(doc: JsonValue, choice: JsonValue, text: Seq<char>)
    requires
        doc.text_member("response"@) is None,
        doc.text_member("text"@) is None,
        first_choice(doc) == Some(choice),
        choice.text_member("text"@) == Some(text),
    ensures
        completion(doc) == trimmed(text),
{
    lemma_found_text_by_precedence(doc);
}

/// A document with neither of the two top-level strings, whose first choice
/// has no string member `text` but a member `message` with a string member
/// `content`, yields that string, trimmed.
pub proof fn lemma_choice_message_comes_last(
    doc: JsonValue,
    choice: JsonValue,
    message: JsonValue,
    content: Seq<char>,
)
    requires
        doc.text_member("response"@) is None,
        doc.text_member("text"@) is None,
        first_choice(doc) == Some(choice),
        choice.text_member("text"@) is None,
        choice.member("message"@) == Some(message),
        message.text_member("content"@) == Some(content),
    ensures
        completion(doc) == trimmed(content),
{
    lemma_found_text_by_precedence(doc);
}

/// A document that matches none of the shapes yields its own JSON text.
pub proof fn lemma_unknown_shape_is_handed_back(doc: JsonValue)
    requires
        forall|shape: Shape| shaped_text(shape, doc) is None,
    ensures
        completion(doc) == compact_text(doc),
{
    lemma_found_text_by_precedence(doc);
    assert(shaped_text(Shape::Response, doc) is None);
    assert(shaped_text(Shape::Text, doc) is None);
    assert(shaped_text(Shape::ChoiceText, doc) is None);
    assert(shaped_text(Shape::ChoiceMessage, doc) is None);
}

} // verus!
