use cloudfn::error::Error;
use cloudfn::wire::{read_field, read_optional_field, required};
use cloudfn::wire::{Decode, Encode, Json, Reply, Score};

fn wire_score(x: f32) -> Score {
    Score::from_bits(x.to_bits())
}

fn wire_text(s: &str) -> Json {
    Json::Text(s.to_string())
}

fn wire_object(fields: Vec<(&str, Json)>) -> Json {
    Json::Object(fields.into_iter().map(|(k, v)| (k.to_string(), v)).collect())
}

#[test]
fn a_score_keeps_its_bits() {
    let s = Score::from_bits(0.87f32.to_bits());
    assert_eq!(s.to_bits(), 0.87f32.to_bits());
    assert_eq!(f32::from_bits(s.to_bits()), 0.87f32);
    assert_eq!(s.bits, 0x3f5eb852);
}

#[test]
fn get_finds_the_first_field_of_that_name() {
    let j = wire_object(vec![
        ("a", Json::Integer(1)),
        ("b", Json::Integer(2)),
        ("a", Json::Integer(3)),
    ]);
    assert_eq!(j.get("a"), Some(&Json::Integer(1)));
    assert_eq!(j.get("b"), Some(&Json::Integer(2)));
    assert_eq!(j.get("c"), None);
    assert_eq!(j.get(""), None);
}

#[test]
fn get_finds_nothing_in_what_is_no_object() {
    assert_eq!(Json::Null.get("a"), None);
    assert_eq!(wire_text("a").get("a"), None);
    assert_eq!(Json::Array(vec![wire_text("a")]).get("a"), None);
}

#[test]
fn each_reader_reads_only_its_own_kind() {
    let text = wire_text("x");
    let number = Json::Number(wire_score(1.5));
    let integer = Json::Integer(7);
    let array = Json::Array(vec![Json::Null]);
    let object = wire_object(vec![("k", Json::Bool(true))]);

    assert_eq!(text.as_text(), Some(&"x".to_string()));
    assert_eq!(number.as_text(), None);
    assert_eq!(number.as_number(), Some(wire_score(1.5)));
    assert_eq!(integer.as_number(), None);
    assert_eq!(integer.as_integer(), Some(7));
    assert_eq!(number.as_integer(), None);
    assert_eq!(array.as_array(), Some(&vec![Json::Null]));
    assert_eq!(object.as_array(), None);
    assert_eq!(object.as_object(), Some(&vec![("k".to_string(), Json::Bool(true))]));
    assert_eq!(array.as_object(), None);
}

#[test]
fn a_string_is_written_as_a_text() {
    assert_eq!("data://a".to_string().encode(), wire_text("data://a"));
}

#[test]
fn a_list_is_written_as_an_array_in_its_order() {
    let list = vec!["b".to_string(), "a".to_string()];
    assert_eq!(list.encode(), Json::Array(vec![wire_text("b"), wire_text("a")]));
    assert_eq!(Vec::<String>::new().encode(), Json::Array(vec![]));
}

#[test]
fn a_string_is_read_from_a_text_only() {
    assert_eq!(String::decode(&wire_text("x")).unwrap(), "x");
    assert!(matches!(String::decode(&Json::Integer(1)), Err(Error::Decode(_))));
    assert!(matches!(String::decode(&Json::Null), Err(Error::Decode(_))));
}

#[test]
fn a_score_is_read_from_a_number_only() {
    assert_eq!(Score::decode(&Json::Number(wire_score(0.25))).unwrap(), wire_score(0.25));
    assert!(matches!(Score::decode(&wire_text("0.25")), Err(Error::Decode(_))));
    assert!(matches!(Score::decode(&Json::Integer(1)), Err(Error::Decode(_))));
}

#[test]
fn a_count_is_read_from_an_integer_that_fits() {
    assert_eq!(u32::decode(&Json::Integer(0)).unwrap(), 0);
    assert_eq!(u32::decode(&Json::Integer(4294967295)).unwrap(), u32::MAX);
    assert!(matches!(u32::decode(&Json::Integer(4294967296)), Err(Error::Decode(_))));
    assert!(matches!(u32::decode(&Json::Number(wire_score(3.0))), Err(Error::Decode(_))));
}

#[test]
fn a_list_is_read_only_where_every_item_is() {
    let good = Json::Array(vec![wire_text("a"), wire_text("b")]);
    assert_eq!(Vec::<String>::decode(&good).unwrap(), vec!["a".to_string(), "b".to_string()]);
    let bad = Json::Array(vec![wire_text("a"), Json::Integer(2), wire_text("c")]);
    assert!(matches!(Vec::<String>::decode(&bad), Err(Error::Decode(_))));
    assert!(matches!(Vec::<String>::decode(&wire_text("a")), Err(Error::Decode(_))));
    assert_eq!(Vec::<String>::decode(&Json::Array(vec![])).unwrap(), Vec::<String>::new());
}

#[test]
fn a_required_field_must_be_there() {
    let j = wire_object(vec![("a", Json::Integer(1))]);
    assert_eq!(required(&j, "a").unwrap(), &Json::Integer(1));
    assert!(matches!(required(&j, "b"), Err(Error::Decode(_))));
    assert_eq!(read_field::<u32>(&j, "a").unwrap(), 1);
    assert!(matches!(read_field::<String>(&j, "a"), Err(Error::Decode(_))));
    assert!(matches!(read_field::<u32>(&j, "b"), Err(Error::Decode(_))));
}

#[test]
fn an_optional_field_may_be_missing_or_null() {
    let j = wire_object(vec![("a", Json::Integer(1)), ("n", Json::Null)]);
    assert_eq!(read_optional_field::<u32>(&j, "a").unwrap(), Some(1));
    assert_eq!(read_optional_field::<u32>(&j, "b").unwrap(), None);
    assert_eq!(read_optional_field::<u32>(&j, "n").unwrap(), None);
    assert!(matches!(read_optional_field::<String>(&j, "a"), Err(Error::Decode(_))));
}

#[test]
fn only_a_text_reply_is_a_string() {
    assert_eq!(Reply::Text("s".to_string()).into_string(), Some("s".to_string()));
    assert_eq!(Reply::Json(wire_text("s")).into_string(), None);
    assert_eq!(Reply::Binary(vec![115]).into_string(), None);
}

#[test]
fn a_reply_is_decoded_from_its_value_or_its_text() {
    assert_eq!(Reply::Json(wire_text("s")).decode::<String>().unwrap(), "s");
    assert_eq!(Reply::Text("s".to_string()).decode::<String>().unwrap(), "s");
    assert!(matches!(Reply::Binary(vec![115]).decode::<String>(), Err(Error::Decode(_))));
    assert!(matches!(Reply::Text("1".to_string()).decode::<u32>(), Err(Error::Decode(_))));
}

#[test]
fn a_decoding_failure_carries_its_message() {
    let e = Error::decode("expected a string");
    assert_eq!(e, Error::Decode("expected a string".to_string()));
    assert_eq!(e.message(), "expected a string");
    assert_eq!(Error::Io("gone".to_string()).message(), "gone");
    assert_eq!(Error::Remote("401".to_string()).message(), "401");
    assert_eq!(Error::Format("unknown".to_string()).message(), "unknown");
}
