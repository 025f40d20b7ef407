//! Tests of the response decoder, field rule by field rule.

use ddg::json::JsonValue;
use ddg::response::{decode_icon, decode_related_topic, decode_u64_or_empty_string, type_from_code};
use ddg::{Error, Icon, RelatedTopic, Response, Type};

fn obj(pairs: Vec<(&str, JsonValue)>) -> JsonValue {
    JsonValue::Object(
        pairs
            .into_iter()
            .map(|(k, v)| (k.to_string(), v))
            .collect(),
    )
}

fn s(text: &str) -> JsonValue {
    JsonValue::Str(text.to_string())
}

fn schema_err(field: &str, index: Option<usize>) -> Error {
    Error::SchemaDecode {
        field: field.to_string(),
        index,
    }
}

#[test]
fn height_number_decodes_as_is() {
    assert_eq!(
        decode_u64_or_empty_string("Height", &JsonValue::UInt(50)),
        Ok(50)
    );
}

#[test]
fn height_empty_string_decodes_to_zero() {
    assert_eq!(decode_u64_or_empty_string("Height", &s("")), Ok(0));
}

#[test]
fn height_other_string_is_schema_error() {
    assert_eq!(
        decode_u64_or_empty_string("Height", &s("abc")),
        Err(schema_err("Height", None))
    );
}

#[test]
fn height_null_is_schema_error() {
    assert_eq!(
        decode_u64_or_empty_string("Height", &JsonValue::Null),
        Err(schema_err("Height", None))
    );
}

#[test]
fn icon_decodes_with_defaulted_and_empty_dimensions() {
    let v = obj(vec![("URL", s("u")), ("Width", s(""))]);
    assert_eq!(
        decode_icon(&v),
        Ok(Icon {
            url: "u".to_string(),
            height: 0,
            width: 0,
        })
    );
}

#[test]
fn icon_without_url_is_schema_error() {
    let v = obj(vec![("Height", JsonValue::UInt(1))]);
    assert_eq!(decode_icon(&v), Err(schema_err("URL", None)));
}

#[test]
fn type_codes_decode_to_their_categories() {
    assert_eq!(type_from_code("A"), Type::Article);
    assert_eq!(type_from_code("D"), Type::Disambiguation);
    assert_eq!(type_from_code("C"), Type::Category);
    assert_eq!(type_from_code("N"), Type::Name);
    assert_eq!(type_from_code("E"), Type::Exclusive);
}

#[test]
fn type_empty_or_unknown_is_unspecified() {
    assert_eq!(type_from_code(""), Type::Unspecified);
    assert_eq!(type_from_code("Z"), Type::Unspecified);
}

#[test]
fn type_absent_key_is_unspecified() {
    let r = Response::decode(&obj(vec![("Heading", s("x"))])).unwrap();
    assert_eq!(r.answer_category, Type::Unspecified);
}

#[test]
fn related_topic_with_text_and_url_is_the_single_link_variant() {
    let v = obj(vec![("Text", s("x")), ("FirstURL", s("y"))]);
    match decode_related_topic(&v).unwrap() {
        RelatedTopic::Topic(t) => {
            assert_eq!(t.text, "x");
            assert_eq!(t.first_url, "y");
            assert_eq!(t.icon, None);
        }
        RelatedTopic::Group(_) => panic!("expected the single-link variant"),
    }
}

#[test]
fn related_topic_with_name_and_topics_is_the_group_variant() {
    let inner = obj(vec![("Text", s("a")), ("FirstURL", s("u"))]);
    let v = obj(vec![
        ("Name", s("g")),
        ("Topics", JsonValue::Array(vec![inner])),
    ]);
    match decode_related_topic(&v).unwrap() {
        RelatedTopic::Group(g) => {
            assert_eq!(g.name, "g");
            assert_eq!(g.topics.len(), 1);
            assert_eq!(g.topics[0].text, "a");
            assert_eq!(g.topics[0].first_url, "u");
        }
        RelatedTopic::Topic(_) => panic!("expected the group variant"),
    }
}

#[test]
fn related_topic_matching_neither_shape_is_schema_error() {
    let v = obj(vec![("Foo", s("bar"))]);
    assert_eq!(
        decode_related_topic(&v),
        Err(schema_err("RelatedTopics", None))
    );
}

#[test]
fn related_topics_failure_is_tagged_with_its_index() {
    let good = obj(vec![("Text", s("a")), ("FirstURL", s("u"))]);
    let bad = obj(vec![("Foo", s("bar"))]);
    let doc = obj(vec![(
        "RelatedTopics",
        JsonValue::Array(vec![good, bad]),
    )]);
    assert_eq!(
        Response::decode(&doc),
        Err(schema_err("RelatedTopics", Some(1)))
    );
}

#[test]
fn non_object_root_is_schema_error() {
    assert_eq!(
        Response::decode(&s("x")),
        Err(schema_err("root", None))
    );
}

#[test]
fn absent_and_null_text_fields_decode_to_none() {
    let doc = obj(vec![("AbstractText", JsonValue::Null)]);
    let r = Response::decode(&doc).unwrap();
    assert_eq!(r.abstract_text, None);
    assert_eq!(r.abstract_source, None);
    assert_eq!(r.heading, "");
    assert!(r.related_topics.is_empty());
    assert!(r.results.is_empty());
}

#[test]
fn non_string_text_field_is_schema_error() {
    let doc = obj(vec![("AbstractText", JsonValue::UInt(3))]);
    assert_eq!(
        Response::decode(&doc),
        Err(schema_err("AbstractText", None))
    );
}

#[test]
fn end_to_end_scenario_decodes_heading_topic_and_category() {
    let body = r#"{"Heading":"Rust","AbstractText":"desc","RelatedTopics":[{"Text":"a","FirstURL":"u1"}],"Type":"A"}"#;
    let r = Response::decode_str(body).unwrap();
    assert_eq!(r.heading, "Rust");
    assert_eq!(r.abstract_text.as_deref(), Some("desc"));
    assert_eq!(r.answer_category, Type::Article);
    assert_eq!(r.related_topics.len(), 1);
    match &r.related_topics[0] {
        RelatedTopic::Topic(t) => {
            assert_eq!(t.text, "a");
            assert_eq!(t.first_url, "u1");
        }
        RelatedTopic::Group(_) => panic!("expected the single-link variant"),
    }
}

#[test]
fn decoding_twice_yields_equal_responses() {
    let body = r#"{"Heading":"Rust","Image":{"URL":"u","Height":"","Width":7},"Results":[{"Text":"r","FirstURL":"ru"}],"Type":"D"}"#;
    let first = Response::decode_str(body).unwrap();
    let second = Response::decode_str(body).unwrap();
    assert_eq!(first, second);
}

#[test]
fn malformed_json_is_the_json_syntax_error() {
    assert_eq!(Response::decode_str("not json"), Err(Error::JsonSyntax));
}

#[test]
fn results_decode_in_service_order() {
    let body = r#"{"Results":[{"Text":"one","FirstURL":"u1"},{"Text":"two","FirstURL":"u2","Icon":{"URL":"i","Height":3,"Width":""}}]}"#;
    let r = Response::decode_str(body).unwrap();
    assert_eq!(r.results.len(), 2);
    assert_eq!(r.results[0].text, "one");
    assert_eq!(r.results[1].first_url, "u2");
    let icon = r.results[1].icon.as_ref().unwrap();
    assert_eq!(icon.url, "i");
    assert_eq!(icon.height, 3);
    assert_eq!(icon.width, 0);
}

#[test]
fn height_largest_number_decodes_as_is() {
    assert_eq!(
        decode_u64_or_empty_string("Height", &JsonValue::UInt(u64::MAX)),
        Ok(u64::MAX)
    );
}

#[test]
fn duplicate_keys_take_the_first_field() {
    let doc = JsonValue::Object(vec![
        ("Heading".to_string(), s("first")),
        ("Heading".to_string(), s("second")),
    ]);
    assert_eq!(Response::decode(&doc).unwrap().heading, "first");
}

#[test]
fn null_type_is_unspecified() {
    let doc = obj(vec![("Type", JsonValue::Null)]);
    assert_eq!(
        Response::decode(&doc).unwrap().answer_category,
        Type::Unspecified
    );
}

#[test]
fn group_with_empty_topics_decodes_to_empty_group() {
    let v = obj(vec![("Name", s("g")), ("Topics", JsonValue::Array(vec![]))]);
    match decode_related_topic(&v).unwrap() {
        RelatedTopic::Group(g) => {
            assert_eq!(g.name, "g");
            assert!(g.topics.is_empty());
        }
        RelatedTopic::Topic(_) => panic!("expected the group variant"),
    }
}

#[test]
fn group_member_that_is_a_group_is_schema_error() {
    let nested = obj(vec![("Name", s("inner")), ("Topics", JsonValue::Array(vec![]))]);
    let v = obj(vec![("Name", s("g")), ("Topics", JsonValue::Array(vec![nested]))]);
    assert_eq!(decode_related_topic(&v), Err(schema_err("Text", None)));
}

#[test]
fn parsed_document_matches_hand_built_value() {
    let body = r#"{"Heading":"h","Type":"C"}"#;
    let via_text = Response::decode_str(body).unwrap();
    let via_value = Response::decode(&obj(vec![("Heading", s("h")), ("Type", s("C"))])).unwrap();
    assert_eq!(via_text, via_value);
}
