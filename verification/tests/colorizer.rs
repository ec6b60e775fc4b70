use cloudfn::dispatch::{Exchange, Step};
use cloudfn::error::Error;
use cloudfn::image::colorizer::{ColorizerInput, ColorizerOutput};
use cloudfn::image::{BatchColorize, BatchColorizing, BlobHandle, Colorize, Colorizing};
use cloudfn::image::{ImageFile, Source};
use cloudfn::wire::{Decode, Encode, Json, Payload, Reply};

fn jtext(s: &str) -> Json {
    Json::Text(s.to_string())
}

fn jobject(fields: Vec<(&str, Json)>) -> Json {
    Json::Object(fields.into_iter().map(|(k, v)| (k.to_string(), v)).collect())
}

fn output_of(uris: &[&str]) -> Reply {
    Reply::Json(jobject(vec![("output", Json::Array(uris.iter().map(|u| jtext(u)).collect()))]))
}

fn file_at(uri: &str) -> ImageFile {
    ImageFile { file: BlobHandle::new(uri) }
}

#[test]
fn the_colorizer_is_sent_a_list_even_for_one_image() {
    let r = Colorizing.request(&vec!["data://a".to_string()]);
    assert_eq!(r.algo, "deeplearning/ColorfulImageColorization/1.1");
    assert_eq!(
        r.input,
        Payload::Json(jobject(vec![("image", Json::Array(vec![jtext("data://a")]))]))
    );
}

#[test]
fn the_colorizer_is_sent_all_references_in_their_order() {
    let uris = vec!["data://c".to_string(), "data://a".to_string(), "data://b".to_string()];
    let r = BatchColorizing.request(&uris);
    assert_eq!(r.algo, "deeplearning/ColorfulImageColorization/1.1");
    assert_eq!(
        r.input,
        Payload::Json(jobject(vec![(
            "image",
            Json::Array(vec![jtext("data://c"), jtext("data://a"), jtext("data://b")])
        )]))
    );
    let none = BatchColorizing.request(&vec![]);
    assert_eq!(none.input, Payload::Json(jobject(vec![("image", Json::Array(vec![]))])));
}

#[test]
fn the_request_of_the_colorizer_survives_the_wire() {
    let input = ColorizerInput { image: vec!["data://b".to_string(), "data://a".to_string()] };
    assert_eq!(ColorizerInput::decode(&input.encode()).unwrap(), input);
    let empty = ColorizerInput { image: vec![] };
    assert_eq!(ColorizerInput::decode(&empty.encode()).unwrap(), empty);
}

#[test]
fn the_reply_of_the_colorizer_is_a_list_of_references() {
    let j = jobject(vec![("output", Json::Array(vec![jtext("data://o")]))]);
    assert_eq!(
        ColorizerOutput::decode(&j).unwrap(),
        ColorizerOutput { output: vec!["data://o".to_string()] }
    );
    assert!(matches!(ColorizerOutput::decode(&jobject(vec![])), Err(Error::Decode(_))));
    let wrong = jobject(vec![("output", jtext("data://o"))]);
    assert!(matches!(ColorizerOutput::decode(&wrong), Err(Error::Decode(_))));
}

#[test]
fn one_image_yields_the_first_reference() {
    assert_eq!(Colorizing.outcome(output_of(&["data://o"])).unwrap(), file_at("data://o"));
    assert_eq!(
        Colorizing.outcome(output_of(&["data://o", "data://p"])).unwrap(),
        file_at("data://o")
    );
}

#[test]
fn a_reply_without_a_reference_is_a_decoding_failure() {
    assert!(matches!(Colorizing.outcome(output_of(&[])), Err(Error::Decode(_))));
    assert!(matches!(Colorizing.outcome(Reply::Text("x".to_string())), Err(Error::Decode(_))));
}

#[test]
fn a_batch_yields_one_image_for_each_reference_in_order() {
    let files = BatchColorizing.outcome(output_of(&["data://oa", "data://ob", "data://oc"]));
    assert_eq!(files.unwrap(), vec![file_at("data://oa"), file_at("data://ob"), file_at("data://oc")]);
    assert_eq!(BatchColorizing.outcome(output_of(&[])).unwrap(), vec![]);
    assert!(matches!(BatchColorizing.outcome(Reply::Binary(vec![])), Err(Error::Decode(_))));
}

#[test]
fn colorizing_a_remote_image_makes_one_call() {
    let job = Source::Remote(BlobHandle::new("data://.my/bw.png")).colorize();
    match job.begin() {
        Step::Invoke(calling, request) => {
            assert_eq!(
                request.input,
                Payload::Json(jobject(vec![("image", Json::Array(vec![jtext("data://.my/bw.png")]))]))
            );
            let file = calling.replied(Ok(output_of(&["data://.algo/out.png"]))).unwrap();
            assert_eq!(file.file.uri, "data://.algo/out.png");
        }
        _ => panic!("a remote image needs no staging"),
    }
}

#[test]
fn a_batch_keeps_the_positions_of_its_sources() {
    let a = BlobHandle::new("data://a");
    let sources = vec![
        Source::Shared(&a),
        Source::Path(Some("b.jpg".to_string())),
        Source::Remote(BlobHandle::new("data://c")),
    ];
    let step = sources.colorize().begin();
    let (uploading, name) = match step {
        Step::Upload(uploading, name) => (uploading, name),
        _ => panic!("the second source has to be uploaded"),
    };
    assert_eq!(uploading.index(), 1);
    assert!(name.ends_with("-b.jpg"));
    let staged = BlobHandle::new(&format!("data://.my/tmp/{}", name));
    let (calling, request) = match uploading.uploaded(Ok(staged)) {
        Step::Invoke(calling, request) => (calling, request),
        _ => panic!("nothing is left to stage"),
    };
    let expected = vec![jtext("data://a"), jtext(&format!("data://.my/tmp/{}", name)), jtext("data://c")];
    assert_eq!(request.input, Payload::Json(jobject(vec![("image", Json::Array(expected))])));
    let files = calling.replied(Ok(output_of(&["out://a", "out://b", "out://c"]))).unwrap();
    assert_eq!(files, vec![file_at("out://a"), file_at("out://b"), file_at("out://c")]);
}

#[test]
fn a_batch_stops_at_the_first_source_that_fails() {
    let sources = vec![
        Source::Remote(BlobHandle::new("data://a")),
        Source::Path(Some("b.jpg".to_string())),
        Source::Stream,
    ];
    let uploading = match sources.colorize().begin() {
        Step::Upload(uploading, _) => uploading,
        _ => panic!("the second source has to be uploaded"),
    };
    assert_eq!(uploading.index(), 1);
    match uploading.uploaded(Err(Error::Remote("quota".to_string()))) {
        Step::Finish(r) => assert_eq!(r, Err(Error::Remote("quota".to_string()))),
        _ => panic!("a failed upload ends the batch"),
    }
}

#[test]
fn an_empty_batch_makes_its_call_at_once() {
    match Vec::<Source>::new().colorize().begin() {
        Step::Invoke(calling, request) => {
            assert_eq!(request.input, Payload::Json(jobject(vec![("image", Json::Array(vec![]))])));
            assert_eq!(calling.replied(Ok(output_of(&[]))).unwrap(), vec![]);
        }
        _ => panic!("nothing is there to stage"),
    }
}
