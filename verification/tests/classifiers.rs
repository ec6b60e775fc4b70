use cloudfn::error::Error;
use cloudfn::image::classifier::{request, tag};
use cloudfn::image::classifiers::{to_tags, AsTag};
use cloudfn::image::classifiers::{DeepFace, DeepFaceOutput};
use cloudfn::image::classifiers::{Entry, Illustration, IllustrationInput, IllustrationOutput};
use cloudfn::image::classifiers::{InceptionNet, InceptionNetOutput};
use cloudfn::image::classifiers::{Places365, PlacesOutput, PlacesTags};
use cloudfn::image::classifiers::{RealEstate, RealEstateInput, RealEstateOutput, RealEstateTags};
use cloudfn::image::classifiers::{Subreddit, SubredditOutput, SubredditTag};
use cloudfn::image::{ClassifierAlgo, ImageWrapper, Tag};
use cloudfn::wire::{Decode, Encode, Json, Payload, Reply, Score};

fn conf(x: f32) -> Score {
    Score::from_bits(x.to_bits())
}

fn num(x: f32) -> Json {
    Json::Number(conf(x))
}

fn text(s: &str) -> Json {
    Json::Text(s.to_string())
}

fn object(fields: Vec<(&str, Json)>) -> Json {
    Json::Object(fields.into_iter().map(|(k, v)| (k.to_string(), v)).collect())
}

fn a_tag(class: &str, confidence: f32) -> Tag {
    Tag { confidence: conf(confidence), class: class.to_string() }
}

#[test]
fn every_algorithm_has_its_identifier() {
    assert_eq!(InceptionNet::algo(), "deeplearning/InceptionNet/1.0");
    assert_eq!(DeepFace::algo(), "deeplearning/DeepFaceRecognition/0.1");
    assert_eq!(Subreddit::algo(), "deeplearning/SubredditClassifier/0.1");
    assert_eq!(Places365::algo(), "deeplearning/Places365Classifier/0.1");
    assert_eq!(RealEstate::algo(), "deeplearning/RealEstateClassifier/0.2");
    assert_eq!(Illustration::algo(), "deeplearning/IllustrationTagger/0.2");
}

#[test]
fn the_general_classifier_sends_the_bare_reference() {
    let input = InceptionNet::default().make_input("data://.my/tmp/a.png");
    assert_eq!(input, "data://.my/tmp/a.png");
    assert_eq!(input.encode(), text("data://.my/tmp/a.png"));
    assert_eq!(String::decode(&input.encode()).unwrap(), input);
}

#[test]
fn the_subreddit_classifier_sends_the_bare_reference() {
    let input = Subreddit.make_input("data://.my/tmp/a.png");
    assert_eq!(input.encode(), text("data://.my/tmp/a.png"));
    assert_eq!(String::decode(&input.encode()).unwrap(), input);
}

#[test]
fn the_face_recogniser_wraps_the_reference() {
    let input = DeepFace.make_input("data://.my/tmp/a.png");
    assert_eq!(input, ImageWrapper { image: "data://.my/tmp/a.png".to_string() });
    assert_eq!(input.encode(), object(vec![("image", text("data://.my/tmp/a.png"))]));
    assert_eq!(ImageWrapper::decode(&input.encode()).unwrap(), input);
}

#[test]
fn the_scene_classifier_wraps_the_reference() {
    let input = Places365.make_input("data://x");
    assert_eq!(input.encode(), object(vec![("image", text("data://x"))]));
    assert_eq!(ImageWrapper::decode(&input.encode()).unwrap(), input);
}

#[test]
fn a_wrapped_reference_needs_its_field() {
    assert!(matches!(ImageWrapper::decode(&object(vec![])), Err(Error::Decode(_))));
    assert!(matches!(ImageWrapper::decode(&text("data://x")), Err(Error::Decode(_))));
    let wrong = object(vec![("image", Json::Integer(1))]);
    assert!(matches!(ImageWrapper::decode(&wrong), Err(Error::Decode(_))));
}

#[test]
fn a_count_that_is_not_set_is_not_sent() {
    let algo = RealEstate::default();
    assert_eq!(algo.num_results, None);
    let input = algo.make_input("data://x");
    assert_eq!(input, RealEstateInput { image: "data://x".to_string(), num_results: None });
    let sent = input.encode();
    assert_eq!(sent, object(vec![("image", text("data://x"))]));
    assert_eq!(sent.get("numResults"), None);
    assert_eq!(RealEstateInput::decode(&sent).unwrap(), input);
}

#[test]
fn a_count_that_is_set_is_sent_in_camel_case() {
    let input = RealEstate { num_results: Some(3) }.make_input("data://x");
    let sent = input.encode();
    assert_eq!(
        sent,
        object(vec![("image", text("data://x")), ("numResults", Json::Integer(3))])
    );
    assert_eq!(sent.get("num_results"), None);
    assert_eq!(RealEstateInput::decode(&sent).unwrap(), input);
}

#[test]
fn the_largest_count_survives_the_wire() {
    let input = RealEstate { num_results: Some(u32::MAX) }.make_input("");
    assert_eq!(input.encode().get("numResults"), Some(&Json::Integer(4294967295)));
    assert_eq!(RealEstateInput::decode(&input.encode()).unwrap(), input);
}

#[test]
fn a_null_count_reads_as_no_count() {
    let sent = object(vec![("image", text("data://x")), ("numResults", Json::Null)]);
    let read = RealEstateInput::decode(&sent).unwrap();
    assert_eq!(read.num_results, None);
    let wrong = object(vec![("image", text("data://x")), ("numResults", text("3"))]);
    assert!(matches!(RealEstateInput::decode(&wrong), Err(Error::Decode(_))));
}

#[test]
fn an_empty_whitelist_is_not_sent() {
    let algo = Illustration::default();
    assert!(algo.whitelist.is_empty());
    let input = algo.make_input("data://x");
    assert_eq!(input, IllustrationInput { image: "data://x".to_string(), tags: None });
    let sent = input.encode();
    assert_eq!(sent, object(vec![("image", text("data://x"))]));
    assert_eq!(sent.get("tags"), None);
    assert_eq!(IllustrationInput::decode(&sent).unwrap(), input);
}

#[test]
fn a_whitelist_is_sent_in_its_order() {
    let algo = Illustration { whitelist: vec!["smile".to_string(), "1girl".to_string()] };
    let input = algo.make_input("data://x");
    assert_eq!(input.tags, Some(vec!["smile".to_string(), "1girl".to_string()]));
    let sent = input.encode();
    assert_eq!(
        sent,
        object(vec![
            ("image", text("data://x")),
            ("tags", Json::Array(vec![text("smile"), text("1girl")])),
        ])
    );
    assert_eq!(IllustrationInput::decode(&sent).unwrap(), input);
}

#[test]
fn a_request_with_an_empty_list_of_tags_survives_the_wire() {
    let input = IllustrationInput { image: "i".to_string(), tags: Some(vec![]) };
    assert_eq!(
        input.encode(),
        object(vec![("image", text("i")), ("tags", Json::Array(vec![]))])
    );
    assert_eq!(IllustrationInput::decode(&input.encode()).unwrap(), input);
}

#[test]
fn a_tag_is_read_from_its_two_fields() {
    let j = object(vec![("class", text("cat")), ("confidence", num(0.9))]);
    assert_eq!(Tag::decode(&j).unwrap(), a_tag("cat", 0.9));
    let swapped = object(vec![("confidence", num(0.9)), ("class", text("cat"))]);
    assert_eq!(Tag::decode(&swapped).unwrap(), a_tag("cat", 0.9));
    let more = object(vec![
        ("class", text("cat")),
        ("id", Json::Integer(4)),
        ("confidence", num(0.9)),
    ]);
    assert_eq!(Tag::decode(&more).unwrap(), a_tag("cat", 0.9));
}

#[test]
fn a_tag_without_one_of_its_fields_is_not_read() {
    assert!(matches!(Tag::decode(&object(vec![("class", text("cat"))])), Err(Error::Decode(_))));
    assert!(matches!(
        Tag::decode(&object(vec![("confidence", num(0.9))])),
        Err(Error::Decode(_))
    ));
    let wrong = object(vec![("class", text("cat")), ("confidence", text("0.9"))]);
    assert!(matches!(Tag::decode(&wrong), Err(Error::Decode(_))));
    assert!(matches!(Tag::decode(&Json::Array(vec![])), Err(Error::Decode(_))));
}

#[test]
fn the_general_classifier_gives_its_tags_as_they_come() {
    let reply = object(vec![(
        "tags",
        Json::Array(vec![
            object(vec![("class", text("cliff")), ("confidence", num(0.5))]),
            object(vec![("class", text("sea")), ("confidence", num(0.75))]),
        ]),
    )]);
    let output = InceptionNetOutput::decode(&reply).unwrap();
    let c = InceptionNet.from_output(output);
    assert_eq!(c.tags, vec![a_tag("cliff", 0.5), a_tag("sea", 0.75)]);
    assert_eq!(c.extra, ());
}

#[test]
fn the_face_recogniser_gives_one_tag_for_each_pair() {
    let reply = object(vec![(
        "results",
        Json::Array(vec![
            Json::Array(vec![num(0.25), text("Ada")]),
            Json::Array(vec![num(0.125), text("Grace")]),
        ]),
    )]);
    let output = DeepFaceOutput::decode(&reply).unwrap();
    assert_eq!(
        output.results,
        vec![(conf(0.25), "Ada".to_string()), (conf(0.125), "Grace".to_string())]
    );
    let c = DeepFace.from_output(output);
    assert_eq!(c.tags, vec![a_tag("Ada", 0.25), a_tag("Grace", 0.125)]);
}

#[test]
fn a_pair_has_exactly_a_number_and_a_string() {
    let one = Json::Array(vec![num(0.25)]);
    let three = Json::Array(vec![num(0.25), text("Ada"), text("x")]);
    let swapped = Json::Array(vec![text("Ada"), num(0.25)]);
    assert!(matches!(<(Score, String)>::decode(&one), Err(Error::Decode(_))));
    assert!(matches!(<(Score, String)>::decode(&three), Err(Error::Decode(_))));
    assert!(matches!(<(Score, String)>::decode(&swapped), Err(Error::Decode(_))));
    assert!(matches!(<(Score, String)>::decode(&text("Ada")), Err(Error::Decode(_))));
}

#[test]
fn the_three_slots_keep_their_rank_whatever_their_confidence() {
    let output = SubredditOutput {
        first: SubredditTag { class_name: "aww".to_string(), confidence: conf(0.1) },
        second: SubredditTag { class_name: "pics".to_string(), confidence: conf(0.9) },
        third: SubredditTag { class_name: "earthporn".to_string(), confidence: conf(0.5) },
    };
    let c = Subreddit.from_output(output);
    assert_eq!(c.tags, vec![a_tag("aww", 0.1), a_tag("pics", 0.9), a_tag("earthporn", 0.5)]);
}

#[test]
fn the_three_slots_are_read_by_name() {
    let slot = |name: &str, c: f32| object(vec![("className", text(name)), ("confidence", num(c))]);
    let reply = object(vec![
        ("third", slot("c", 0.3)),
        ("first", slot("a", 0.1)),
        ("second", slot("b", 0.2)),
    ]);
    let c = Subreddit.from_output(SubredditOutput::decode(&reply).unwrap());
    assert_eq!(c.tags, vec![a_tag("a", 0.1), a_tag("b", 0.2), a_tag("c", 0.3)]);

    let two = object(vec![("first", slot("a", 0.1)), ("second", slot("b", 0.2))]);
    assert!(matches!(SubredditOutput::decode(&two), Err(Error::Decode(_))));
    let snake = object(vec![("class_name", text("a")), ("confidence", num(0.1))]);
    assert!(matches!(SubredditTag::decode(&snake), Err(Error::Decode(_))));
}

#[test]
fn the_scene_classifier_gives_one_tag_for_each_prediction() {
    let reply = object(vec![(
        "predictions",
        Json::Array(vec![
            object(vec![("class", text("coast")), ("prob", num(0.5))]),
            object(vec![("class", text("cliff")), ("prob", num(0.25))]),
        ]),
    )]);
    let output = PlacesOutput::decode(&reply).unwrap();
    assert_eq!(output.predictions[1], PlacesTags { class: "cliff".to_string(), prob: conf(0.25) });
    let c = Places365.from_output(output);
    assert_eq!(c.tags, vec![a_tag("coast", 0.5), a_tag("cliff", 0.25)]);
}

#[test]
fn the_real_estate_classifier_gives_one_tag_for_each_prediction() {
    let reply = object(vec![(
        "predictions",
        Json::Array(vec![object(vec![("class", text("kitchen")), ("prob", num(0.5))])]),
    )]);
    let output = RealEstateOutput::decode(&reply).unwrap();
    assert_eq!(
        output.predictions,
        vec![RealEstateTags { class: "kitchen".to_string(), prob: conf(0.5) }]
    );
    let c = RealEstate { num_results: Some(1) }.from_output(output);
    assert_eq!(c.tags, vec![a_tag("kitchen", 0.5)]);
    let none = object(vec![("predictions", Json::Array(vec![]))]);
    let c = RealEstate::default().from_output(RealEstateOutput::decode(&none).unwrap());
    assert!(c.tags.is_empty());
}

#[test]
fn a_single_entry_mapping_is_one_tag() {
    let j = object(vec![("cat_ears", num(0.87))]);
    let entry = Entry::decode(&j).unwrap();
    assert_eq!(entry, Entry { label: "cat_ears".to_string(), score: conf(0.87) });
    assert_eq!(entry.as_tag(), a_tag("cat_ears", 0.87));
    assert_eq!(f32::from_bits(entry.as_tag().confidence.to_bits()), 0.87f32);
}

#[test]
fn a_mapping_with_no_key_or_two_keys_is_a_decoding_failure() {
    assert!(matches!(Entry::decode(&object(vec![])), Err(Error::Decode(_))));
    let two = object(vec![("cat_ears", num(0.87)), ("tail", num(0.5))]);
    assert!(matches!(Entry::decode(&two), Err(Error::Decode(_))));
    let twice = object(vec![("cat_ears", num(0.87)), ("cat_ears", num(0.87))]);
    assert!(matches!(Entry::decode(&twice), Err(Error::Decode(_))));
    assert!(matches!(Entry::decode(&object(vec![("cat_ears", text("x"))])), Err(Error::Decode(_))));
    assert!(matches!(Entry::decode(&Json::Array(vec![num(0.87)])), Err(Error::Decode(_))));
}

#[test]
fn the_tagger_splits_its_groups() {
    let group = |label: &str, s: f32| Json::Array(vec![object(vec![(label, num(s))])]);
    let reply = object(vec![
        ("character", group("hatsune miku", 0.5)),
        ("copyright", group("vocaloid", 0.25)),
        ("rating", group("safe", 0.75)),
        (
            "general",
            Json::Array(vec![
                object(vec![("1girl", num(0.5))]),
                object(vec![("twintails", num(0.125))]),
            ]),
        ),
    ]);
    let output = IllustrationOutput::decode(&reply).unwrap();
    let c = Illustration::default().from_output(output);
    assert_eq!(c.tags, vec![a_tag("1girl", 0.5), a_tag("twintails", 0.125)]);
    assert_eq!(c.extra.character, vec![a_tag("hatsune miku", 0.5)]);
    assert_eq!(c.extra.copyright, vec![a_tag("vocaloid", 0.25)]);
    assert_eq!(c.extra.rating, vec![a_tag("safe", 0.75)]);
}

#[test]
fn one_bad_mapping_spoils_the_reply_of_the_tagger() {
    let good = || Json::Array(vec![object(vec![("a", num(0.5))])]);
    let bad = Json::Array(vec![
        object(vec![("a", num(0.5))]),
        object(vec![("b", num(0.5)), ("c", num(0.5))]),
    ]);
    let reply = object(vec![
        ("character", good()),
        ("copyright", good()),
        ("rating", bad),
        ("general", good()),
    ]);
    assert!(matches!(IllustrationOutput::decode(&reply), Err(Error::Decode(_))));
    let short = object(vec![("character", good()), ("copyright", good()), ("rating", good())]);
    assert!(matches!(IllustrationOutput::decode(&short), Err(Error::Decode(_))));
}

#[test]
fn entries_become_tags_in_their_order() {
    let entries = vec![
        Entry { label: "b".to_string(), score: conf(0.5) },
        Entry { label: "a".to_string(), score: conf(0.25) },
    ];
    assert_eq!(to_tags(&entries), vec![a_tag("b", 0.5), a_tag("a", 0.25)]);
    assert_eq!(to_tags(&Vec::<Entry>::new()), vec![]);
}

#[test]
fn a_request_names_the_algorithm_and_holds_its_input() {
    let r = request(&DeepFace, "data://x");
    assert_eq!(r.algo, "deeplearning/DeepFaceRecognition/0.1");
    assert_eq!(r.input, Payload::Json(object(vec![("image", text("data://x"))])));
    let r = request(&RealEstate { num_results: Some(2) }, "data://y");
    assert_eq!(r.algo, "deeplearning/RealEstateClassifier/0.2");
    assert_eq!(
        r.input,
        Payload::Json(object(vec![("image", text("data://y")), ("numResults", Json::Integer(2))]))
    );
    let r = request(&InceptionNet, "data://z");
    assert_eq!(r.input, Payload::Json(text("data://z")));
}

#[test]
fn a_reply_of_another_shape_is_a_decoding_failure() {
    let reply = Reply::Json(object(vec![("tags", text("none"))]));
    assert!(matches!(tag(&InceptionNet, &reply), Err(Error::Decode(_))));
    assert!(matches!(tag(&InceptionNet, &Reply::Text("cat".to_string())), Err(Error::Decode(_))));
    assert!(matches!(tag(&DeepFace, &Reply::Binary(vec![1, 2])), Err(Error::Decode(_))));
    let ok = Reply::Json(object(vec![("predictions", Json::Array(vec![]))]));
    assert_eq!(tag(&Places365, &ok).unwrap().tags, vec![]);
}
