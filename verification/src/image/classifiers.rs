//! The classification algorithms that the library knows: for each, its name and the
//! shapes of its request and of its reply.

use crate::error::Error;
use crate::image::classifier::{Classification, ClassificationView, ClassifierAlgo};
use crate::image::classifier::{lemma_image_wrapper_round_trip, ImageWrapper, Tag, TagView};
use crate::wire::{field_as, lemma_object_view, lemma_strings_round_trip, lookup};
use crate::wire::{optional_field_as, read_field, read_optional_field};
use crate::wire::{Decode, Encode, Json, JsonValue, Score};
use vstd::prelude::*;

verus! {

/// An entry of a reply that stands for one tag: its value is that tag.
pub trait AsTag: DeepView<V = TagView> {
    fn as_tag(&self) -> (t: Tag)
        ensures
            t.deep_view() == self.deep_view(),
    ;
}

/// The tags that the entries stand for, in the entries' order.
pub fn to_tags<T: AsTag>(entries: &Vec<T>) -> (tags: Vec<Tag>)
    ensures
        tags.deep_view() == entries.deep_view(),
{
    let mut tags: Vec<Tag> = Vec::new();
    let mut i: usize = 0;
    while i < entries.len()
        invariant
            i <= entries.len(),
            tags.len() == i,
            forall|k: int| 0 <= k < i ==> (#[trigger] tags@[k]).deep_view() == entries@[k].deep_view(),
        decreases entries.len() - i,
    {
        tags.push(entries[i].as_tag());
        i += 1;
    }
    assert(tags.deep_view() =~= entries.deep_view());
    tags
}

/// The reply of [`InceptionNet`]: its tags.
#[derive(Debug, PartialEq)]
pub struct InceptionNetOutput {
    pub tags: Vec<Tag>,
}

impl DeepView for InceptionNetOutput {
    type V = Seq<TagView>;

    open spec fn deep_view(&self) -> Seq<TagView> {
        self.tags.deep_view()
    }
}

impl Decode for InceptionNetOutput {
    /// An object whose field `tags` is an array of tags.
    open spec fn parse(j: JsonValue) -> Option<Seq<TagView>> {
        field_as::<Vec<Tag>>(j, "tags"@)
    }

    fn decode(j: &Json) -> (r: Result<InceptionNetOutput, Error>) {
        match read_field::<Vec<Tag>>(j, "tags") {
            Ok(tags) => Ok(InceptionNetOutput { tags }),
            Err(e) => Err(e),
        }
    }
}

/// The general-purpose classifier.
#[derive(Clone, Copy, Debug, Default, PartialEq)]
pub struct InceptionNet;

impl ClassifierAlgo for InceptionNet {
    type Extra = ();

    type Input = String;

    type Output = InceptionNetOutput;

    open spec fn name() -> Seq<char> {
        "deeplearning/InceptionNet/1.0"@
    }

    /// The bare reference.
    open spec fn input(&self, data_uri: Seq<char>) -> Seq<char> {
        data_uri
    }

    /// The tags as the algorithm gave them.
    open spec fn classification(&self, output: Seq<TagView>) -> ClassificationView<()> {
        ClassificationView { tags: output, extra: () }
    }

    proof fn input_round_trip(&self, data_uri: Seq<char>) {
        assert(<String as Decode>::parse(<String as Encode>::wire(data_uri)) == Some(data_uri));
    }

    fn algo() -> (id: &'static str) {
        "deeplearning/InceptionNet/1.0"
    }

    fn make_input(&self, data_uri: &str) -> (input: String) {
        data_uri.to_owned()
    }

    fn from_output(&self, output: InceptionNetOutput) -> (c: Classification<()>) {
        let c = Classification { tags: output.tags, extra: () };
        assert(c.deep_view().tags == output.deep_view());
        c
    }
}

/// A pair of a confidence and a name, written as an array of the two.
impl Decode for (Score, String) {
    open spec fn parse(j: JsonValue) -> Option<(Score, Seq<char>)> {
        match j {
            JsonValue::Array(items) => if items.len() == 2 {
                match (items[0].number(), items[1].text()) {
                    (Some(confidence), Some(class)) => Some((confidence, class)),
                    _ => None,
                }
            } else {
                None
            },
            _ => None,
        }
    }

    fn decode(j: &Json) -> (r: Result<(Score, String), Error>) {
        match j.as_array() {
            Some(items) => {
                if items.len() != 2 {
                    return Err(Error::decode("expected a pair"));
                }
                assert(items.deep_view()[0] == items@[0].deep_view());
                assert(items.deep_view()[1] == items@[1].deep_view());
                match (items[0].as_number(), items[1].as_text()) {
                    (Some(confidence), Some(class)) => Ok((confidence, class.clone())),
                    _ => Err(Error::decode("expected a number and a string")),
                }
            },
            None => Err(Error::decode("expected a pair")),
        }
    }
}

/// The reply of [`DeepFace`]: pairs of a confidence and a name.
#[derive(Debug, PartialEq)]
pub struct DeepFaceOutput {
    pub results: Vec<(Score, String)>,
}

impl DeepView for DeepFaceOutput {
    type V = Seq<(Score, Seq<char>)>;

    open spec fn deep_view(&self) -> Seq<(Score, Seq<char>)> {
        self.results.deep_view()
    }
}

impl Decode for DeepFaceOutput {
    /// An object whose field `results` is an array of pairs.
    open spec fn parse(j: JsonValue) -> Option<Seq<(Score, Seq<char>)>> {
        field_as::<Vec<(Score, String)>>(j, "results"@)
    }

    fn decode(j: &Json) -> (r: Result<DeepFaceOutput, Error>) {
        match read_field::<Vec<(Score, String)>>(j, "results") {
            Ok(results) => Ok(DeepFaceOutput { results }),
            Err(e) => Err(e),
        }
    }
}

/// The face recogniser.
#[derive(Clone, Copy, Debug, Default, PartialEq)]
pub struct DeepFace;

impl ClassifierAlgo for DeepFace {
    type Extra = ();

    type Input = ImageWrapper;

    type Output = DeepFaceOutput;

    open spec fn name() -> Seq<char> {
        "deeplearning/DeepFaceRecognition/0.1"@
    }

    /// The reference under the key `image`.
    open spec fn input(&self, data_uri: Seq<char>) -> Seq<char> {
        data_uri
    }

    /// One tag for each pair, in the pairs' order.
    open spec fn classification(&self, output: Seq<(Score, Seq<char>)>) -> ClassificationView<()> {
        ClassificationView {
            tags: Seq::new(
                output.len(),
                |i: int| TagView { confidence: output[i].0, class: output[i].1 },
            ),
            extra: (),
        }
    }

    proof fn input_round_trip(&self, data_uri: Seq<char>) {
        lemma_image_wrapper_round_trip(data_uri);
    }

    fn algo() -> (id: &'static str) {
        "deeplearning/DeepFaceRecognition/0.1"
    }

    fn make_input(&self, data_uri: &str) -> (input: ImageWrapper) {
        ImageWrapper { image: data_uri.to_owned() }
    }

    fn from_output(&self, output: DeepFaceOutput) -> (c: Classification<()>) {
        let mut tags: Vec<Tag> = Vec::new();
        let mut i: usize = 0;
        while i < output.results.len()
            invariant
                i <= output.results.len(),
                tags.len() == i,
                forall|k: int|
                    0 <= k < i ==> (#[trigger] tags@[k]).deep_view() == (TagView {
                        confidence: output.results@[k].0,
                        class: output.results@[k].1@,
                    }),
            decreases output.results.len() - i,
        {
            let pair = &output.results[i];
            tags.push(Tag { confidence: pair.0, class: pair.1.clone() });
            i += 1;
        }
        assert(tags.deep_view() =~= self.classification(output.deep_view()).tags);
        Classification { tags, extra: () }
    }
}

/// One of the three slots of the reply of [`Subreddit`]. Its value is the tag that it
/// stands for.
#[derive(Debug, PartialEq)]
pub struct SubredditTag {
    pub class_name: String,
    pub confidence: Score,
}

impl DeepView for SubredditTag {
    type V = TagView;

    open spec fn deep_view(&self) -> TagView {
        TagView { confidence: self.confidence, class: self.class_name@ }
    }
}

impl Decode for SubredditTag {
    /// An object with a string `className` and a number `confidence`.
    open spec fn parse(j: JsonValue) -> Option<TagView> {
        match (field_as::<String>(j, "className"@), field_as::<Score>(j, "confidence"@)) {
            (Some(class), Some(confidence)) => Some(TagView { confidence, class }),
            _ => None,
        }
    }

    fn decode(j: &Json) -> (r: Result<SubredditTag, Error>) {
        let class_name = match read_field::<String>(j, "className") {
            Ok(s) => s,
            Err(e) => return Err(e),
        };
        let confidence = match read_field::<Score>(j, "confidence") {
            Ok(x) => x,
            Err(e) => return Err(e),
        };
        Ok(SubredditTag { class_name, confidence })
    }
}

/// The reply of [`Subreddit`]: the three best categories, each in a slot of its own.
#[derive(Debug, PartialEq)]
pub struct SubredditOutput {
    pub first: SubredditTag,
    pub second: SubredditTag,
    pub third: SubredditTag,
}

/// The mathematical value of a [`SubredditOutput`].
pub struct SubredditOutputView {
    pub first: TagView,
    pub second: TagView,
    pub third: TagView,
}

impl DeepView for SubredditOutput {
    type V = SubredditOutputView;

    open spec fn deep_view(&self) -> SubredditOutputView {
        SubredditOutputView {
            first: self.first.deep_view(),
            second: self.second.deep_view(),
            third: self.third.deep_view(),
        }
    }
}

impl Decode for SubredditOutput {
    /// An object with the slots `first`, `second` and `third`.
    open spec fn parse(j: JsonValue) -> Option<SubredditOutputView> {
        match (
            field_as::<SubredditTag>(j, "first"@),
            field_as::<SubredditTag>(j, "second"@),
            field_as::<SubredditTag>(j, "third"@),
        ) {
            (Some(first), Some(second), Some(third)) => Some(
                SubredditOutputView { first, second, third },
            ),
            _ => None,
        }
    }

    fn decode(j: &Json) -> (r: Result<SubredditOutput, Error>) {
        let first = match read_field::<SubredditTag>(j, "first") {
            Ok(t) => t,
            Err(e) => return Err(e),
        };
        let second = match read_field::<SubredditTag>(j, "second") {
            Ok(t) => t,
            Err(e) => return Err(e),
        };
        let third = match read_field::<SubredditTag>(j, "third") {
            Ok(t) => t,
            Err(e) => return Err(e),
        };
        Ok(SubredditOutput { first, second, third })
    }
}

/// The classifier that names the three forums an image fits best.
#[derive(Clone, Copy, Debug, Default, PartialEq)]
pub struct Subreddit;

impl ClassifierAlgo for Subreddit {
    type Extra = ();

    type Input = String;

    type Output = SubredditOutput;

    open spec fn name() -> Seq<char> {
        "deeplearning/SubredditClassifier/0.1"@
    }

    /// The bare reference.
    open spec fn input(&self, data_uri: Seq<char>) -> Seq<char> {
        data_uri
    }

    /// The three slots in the order of their rank, whatever their confidences are.
    open spec fn classification(&self, output: SubredditOutputView) -> ClassificationView<()> {
        ClassificationView { tags: seq![output.first, output.second, output.third], extra: () }
    }

    proof fn input_round_trip(&self, data_uri: Seq<char>) {
        assert(<String as Decode>::parse(<String as Encode>::wire(data_uri)) == Some(data_uri));
    }

    fn algo() -> (id: &'static str) {
        "deeplearning/SubredditClassifier/0.1"
    }

    fn make_input(&self, data_uri: &str) -> (input: String) {
        data_uri.to_owned()
    }

    fn from_output(&self, output: SubredditOutput) -> (c: Classification<()>) {
        let mut tags: Vec<Tag> = Vec::new();
        tags.push(Tag { class: output.first.class_name, confidence: output.first.confidence });
        tags.push(Tag { class: output.second.class_name, confidence: output.second.confidence });
        tags.push(Tag { class: output.third.class_name, confidence: output.third.confidence });
        assert(tags.deep_view() =~= self.classification(output.deep_view()).tags);
        Classification { tags, extra: () }
    }
}

/// One prediction of [`Places365`]. Its value is the tag that it stands for.
#[derive(Debug, PartialEq)]
pub struct PlacesTags {
    pub class: String,
    pub prob: Score,
}

impl DeepView for PlacesTags {
    type V = TagView;

    open spec fn deep_view(&self) -> TagView {
        TagView { confidence: self.prob, class: self.class@ }
    }
}

impl Decode for PlacesTags {
    /// An object with a string `class` and a number `prob`.
    open spec fn parse(j: JsonValue) -> Option<TagView> {
        match (field_as::<String>(j, "class"@), field_as::<Score>(j, "prob"@)) {
            (Some(class), Some(confidence)) => Some(TagView { confidence, class }),
            _ => None,
        }
    }

    fn decode(j: &Json) -> (r: Result<PlacesTags, Error>) {
        let class = match read_field::<String>(j, "class") {
            Ok(s) => s,
            Err(e) => return Err(e),
        };
        let prob = match read_field::<Score>(j, "prob") {
            Ok(x) => x,
            Err(e) => return Err(e),
        };
        Ok(PlacesTags { class, prob })
    }
}

impl AsTag for PlacesTags {
    fn as_tag(&self) -> (t: Tag) {
        Tag { confidence: self.prob, class: self.class.clone() }
    }
}

/// The reply of [`Places365`]: its predictions.
#[derive(Debug, PartialEq)]
pub struct PlacesOutput {
    pub predictions: Vec<PlacesTags>,
}

impl DeepView for PlacesOutput {
    type V = Seq<TagView>;

    open spec fn deep_view(&self) -> Seq<TagView> {
        self.predictions.deep_view()
    }
}

impl Decode for PlacesOutput {
    /// An object whose field `predictions` is an array of predictions.
    open spec fn parse(j: JsonValue) -> Option<Seq<TagView>> {
        field_as::<Vec<PlacesTags>>(j, "predictions"@)
    }

    fn decode(j: &Json) -> (r: Result<PlacesOutput, Error>) {
        match read_field::<Vec<PlacesTags>>(j, "predictions") {
            Ok(predictions) => Ok(PlacesOutput { predictions }),
            Err(e) => Err(e),
        }
    }
}

/// The classifier of scenes and locations.
#[derive(Clone, Copy, Debug, Default, PartialEq)]
pub struct Places365;

impl ClassifierAlgo for Places365 {
    type Extra = ();

    type Input = ImageWrapper;

    type Output = PlacesOutput;

    open spec fn name() -> Seq<char> {
        "deeplearning/Places365Classifier/0.1"@
    }

    /// The reference under the key `image`.
    open spec fn input(&self, data_uri: Seq<char>) -> Seq<char> {
        data_uri
    }

    /// One tag for each prediction, in the predictions' order.
    open spec fn classification(&self, output: Seq<TagView>) -> ClassificationView<()> {
        ClassificationView { tags: output, extra: () }
    }

    proof fn input_round_trip(&self, data_uri: Seq<char>) {
        lemma_image_wrapper_round_trip(data_uri);
    }

    fn algo() -> (id: &'static str) {
        "deeplearning/Places365Classifier/0.1"
    }

    fn make_input(&self, data_uri: &str) -> (input: ImageWrapper) {
        ImageWrapper { image: data_uri.to_owned() }
    }

    fn from_output(&self, output: PlacesOutput) -> (c: Classification<()>) {
        Classification { tags: to_tags(&output.predictions), extra: () }
    }
}

/// One prediction of [`RealEstate`]. Its value is the tag that it stands for.
#[derive(Debug, PartialEq)]
pub struct RealEstateTags {
    pub class: String,
    pub prob: Score,
}

impl DeepView for RealEstateTags {
    type V = TagView;

    open spec fn deep_view(&self) -> TagView {
        TagView { confidence: self.prob, class: self.class@ }
    }
}

impl Decode for RealEstateTags {
    /// An object with a string `class` and a number `prob`.
    open spec fn parse(j: JsonValue) -> Option<TagView> {
        match (field_as::<String>(j, "class"@), field_as::<Score>(j, "prob"@)) {
            (Some(class), Some(confidence)) => Some(TagView { confidence, class }),
            _ => None,
        }
    }

    fn decode(j: &Json) -> (r: Result<RealEstateTags, Error>) {
        let class = match read_field::<String>(j, "class") {
            Ok(s) => s,
            Err(e) => return Err(e),
        };
        let prob = match read_field::<Score>(j, "prob") {
            Ok(x) => x,
            Err(e) => return Err(e),
        };
        Ok(RealEstateTags { class, prob })
    }
}

impl AsTag for RealEstateTags {
    fn as_tag(&self) -> (t: Tag) {
        Tag { confidence: self.prob, class: self.class.clone() }
    }
}

/// The reply of [`RealEstate`]: its predictions.
#[derive(Debug, PartialEq)]
pub struct RealEstateOutput {
    pub predictions: Vec<RealEstateTags>,
}

impl DeepView for RealEstateOutput {
    type V = Seq<TagView>;

    open spec fn deep_view(&self) -> Seq<TagView> {
        self.predictions.deep_view()
    }
}

impl Decode for RealEstateOutput {
    /// An object whose field `predictions` is an array of predictions.
    open spec fn parse(j: JsonValue) -> Option<Seq<TagView>> {
        field_as::<Vec<RealEstateTags>>(j, "predictions"@)
    }

    fn decode(j: &Json) -> (r: Result<RealEstateOutput, Error>) {
        match read_field::<Vec<RealEstateTags>>(j, "predictions") {
            Ok(predictions) => Ok(RealEstateOutput { predictions }),
            Err(e) => Err(e),
        }
    }
}

/// The request of [`RealEstate`]: the image's reference and, where the caller set one,
/// the number of predictions wanted.
#[derive(Debug, PartialEq)]
pub struct RealEstateInput {
    pub image: String,
    pub num_results: Option<u32>,
}

/// The mathematical value of a [`RealEstateInput`].
pub struct RealEstateInputView {
    pub image: Seq<char>,
    pub num_results: Option<u32>,
}

impl DeepView for RealEstateInput {
    type V = RealEstateInputView;

    open spec fn deep_view(&self) -> RealEstateInputView {
        RealEstateInputView { image: self.image@, num_results: self.num_results }
    }
}

impl Encode for RealEstateInput {
    /// An object with the field `image` and, only where a number is set, the field
    /// `numResults`.
    open spec fn wire(v: RealEstateInputView) -> JsonValue {
        match v.num_results {
            Some(n) => JsonValue::Object(
                seq![
                    ("image"@, JsonValue::Text(v.image)),
                    ("numResults"@, JsonValue::Integer(n as u64)),
                ],
            ),
            None => JsonValue::Object(seq![("image"@, JsonValue::Text(v.image))]),
        }
    }

    fn encode(&self) -> (j: Json) {
        let mut fields: Vec<(String, Json)> = Vec::new();
        fields.push(("image".to_owned(), Json::Text(self.image.clone())));
        if let Some(n) = self.num_results {
            fields.push(("numResults".to_owned(), Json::Integer(n as u64)));
        }
        proof {
            lemma_object_view(fields);
            assert(Json::Object(fields).deep_view()->Object_0 =~= Self::wire(
                self.deep_view(),
            )->Object_0);
        }
        Json::Object(fields)
    }
}

impl Decode for RealEstateInput {
    /// An object with a string `image` and, where it has one, a whole number
    /// `numResults`.
    open spec fn parse(j: JsonValue) -> Option<RealEstateInputView> {
        match (field_as::<String>(j, "image"@), optional_field_as::<u32>(j, "numResults"@)) {
            (Some(image), Some(num_results)) => Some(RealEstateInputView { image, num_results }),
            _ => None,
        }
    }

    fn decode(j: &Json) -> (r: Result<RealEstateInput, Error>) {
        let image = match read_field::<String>(j, "image") {
            Ok(s) => s,
            Err(e) => return Err(e),
        };
        let num_results = match read_optional_field::<u32>(j, "numResults") {
            Ok(n) => n,
            Err(e) => return Err(e),
        };
        Ok(RealEstateInput { image, num_results })
    }
}

/// The two keys of the request differ.
proof fn lemma_real_estate_keys()
    ensures
        "image"@ != "numResults"@,
{
    reveal_strlit("image");
    reveal_strlit("numResults");
    assert("image"@.len() == 5);
    assert("numResults"@.len() == 10);
}

/// Where no number of predictions is set, the request has no field `numResults` at all;
/// where one is set, the field holds it.
pub proof fn lemma_count_is_left_out(v: RealEstateInputView)
    ensures
        v.num_results is None ==> RealEstateInput::wire(v).field("numResults"@) is None,
        v.num_results matches Some(n) ==> RealEstateInput::wire(v).field("numResults"@) == Some(
            JsonValue::Integer(n as u64),
        ),
{
    lemma_real_estate_keys();
    let fields = RealEstateInput::wire(v)->Object_0;
    assert(lookup(fields.drop_first(), "numResults"@) == match v.num_results {
        Some(n) => Some(JsonValue::Integer(n as u64)),
        None => None,
    }) by {
        if v.num_results is Some {
            assert(fields.drop_first()[0] == fields[1]);
        }
        assert(fields.drop_first().len() == fields.len() - 1);
    }
}

/// A request that is written and read again is the same request.
pub proof fn lemma_real_estate_input_round_trip(v: RealEstateInputView)
    ensures
        <RealEstateInput as Decode>::parse(<RealEstateInput as Encode>::wire(v)) == Some(v),
{
    lemma_count_is_left_out(v);
    let fields = RealEstateInput::wire(v)->Object_0;
    assert(lookup(fields, "image"@) == Some(JsonValue::Text(v.image)));
}

/// The classifier of rooms and buildings. It returns as many predictions as
/// `num_results` asks for, or as many as the algorithm sees fit where that is `None`.
#[derive(Debug, PartialEq)]
pub struct RealEstate {
    pub num_results: Option<u32>,
}

impl Default for RealEstate {
    fn default() -> (r: RealEstate)
        ensures
            r.num_results is None,
    {
        RealEstate { num_results: None }
    }
}

impl ClassifierAlgo for RealEstate {
    type Extra = ();

    type Input = RealEstateInput;

    type Output = RealEstateOutput;

    open spec fn name() -> Seq<char> {
        "deeplearning/RealEstateClassifier/0.2"@
    }

    /// The reference and the number of predictions wanted.
    open spec fn input(&self, data_uri: Seq<char>) -> RealEstateInputView {
        RealEstateInputView { image: data_uri, num_results: self.num_results }
    }

    /// One tag for each prediction, in the predictions' order.
    open spec fn classification(&self, output: Seq<TagView>) -> ClassificationView<()> {
        ClassificationView { tags: output, extra: () }
    }

    proof fn input_round_trip(&self, data_uri: Seq<char>) {
        lemma_real_estate_input_round_trip(self.input(data_uri));
    }

    fn algo() -> (id: &'static str) {
        "deeplearning/RealEstateClassifier/0.2"
    }

    fn make_input(&self, data_uri: &str) -> (input: RealEstateInput) {
        RealEstateInput { image: data_uri.to_owned(), num_results: self.num_results }
    }

    fn from_output(&self, output: RealEstateOutput) -> (c: Classification<()>) {
        Classification { tags: to_tags(&output.predictions), extra: () }
    }
}

/// A mapping from one label to its score, as [`Illustration`] writes each of its tags.
/// Its value is the tag that it stands for.
#[derive(Debug, PartialEq)]
pub struct Entry {
    pub label: String,
    pub score: Score,
}

impl DeepView for Entry {
    type V = TagView;

    open spec fn deep_view(&self) -> TagView {
        TagView { confidence: self.score, class: self.label@ }
    }
}

impl Decode for Entry {
    /// An object with exactly one field, whose value is a number. An object with no
    /// field, or with two or more, holds no entry.
    open spec fn parse(j: JsonValue) -> Option<TagView> {
        match j {
            JsonValue::Object(fields) => if fields.len() == 1 {
                match fields[0].1.number() {
                    Some(confidence) => Some(TagView { confidence, class: fields[0].0 }),
                    None => None,
                }
            } else {
                None
            },
            _ => None,
        }
    }

    fn decode(j: &Json) -> (r: Result<Entry, Error>) {
        match j.as_object() {
            Some(fields) => {
                if fields.len() != 1 {
                    return Err(Error::decode("expected a mapping with exactly one key"));
                }
                assert(fields.deep_view()[0] == (fields@[0].0@, fields@[0].1.deep_view()));
                match fields[0].1.as_number() {
                    Some(score) => Ok(Entry { label: fields[0].0.clone(), score }),
                    None => Err(Error::decode("expected a number")),
                }
            },
            None => Err(Error::decode("expected a mapping with exactly one key")),
        }
    }
}

impl AsTag for Entry {
    fn as_tag(&self) -> (t: Tag) {
        Tag { confidence: self.score, class: self.label.clone() }
    }
}

/// The reply of [`Illustration`]: four groups of tags.
#[derive(Debug, PartialEq)]
pub struct IllustrationOutput {
    pub character: Vec<Entry>,
    pub copyright: Vec<Entry>,
    pub rating: Vec<Entry>,
    pub general: Vec<Entry>,
}

/// The mathematical value of an [`IllustrationOutput`].
pub struct IllustrationOutputView {
    pub character: Seq<TagView>,
    pub copyright: Seq<TagView>,
    pub rating: Seq<TagView>,
    pub general: Seq<TagView>,
}

impl DeepView for IllustrationOutput {
    type V = IllustrationOutputView;

    open spec fn deep_view(&self) -> IllustrationOutputView {
        IllustrationOutputView {
            character: self.character.deep_view(),
            copyright: self.copyright.deep_view(),
            rating: self.rating.deep_view(),
            general: self.general.deep_view(),
        }
    }
}

impl Decode for IllustrationOutput {
    /// An object whose fields `character`, `copyright`, `rating` and `general` are each
    /// an array of single-entry mappings.
    open spec fn parse(j: JsonValue) -> Option<IllustrationOutputView> {
        match (
            field_as::<Vec<Entry>>(j, "character"@),
            field_as::<Vec<Entry>>(j, "copyright"@),
            field_as::<Vec<Entry>>(j, "rating"@),
            field_as::<Vec<Entry>>(j, "general"@),
        ) {
            (Some(character), Some(copyright), Some(rating), Some(general)) => Some(
                IllustrationOutputView { character, copyright, rating, general },
            ),
            _ => None,
        }
    }

    fn decode(j: &Json) -> (r: Result<IllustrationOutput, Error>) {
        let character = match read_field::<Vec<Entry>>(j, "character") {
            Ok(group) => group,
            Err(e) => return Err(e),
        };
        let copyright = match read_field::<Vec<Entry>>(j, "copyright") {
            Ok(group) => group,
            Err(e) => return Err(e),
        };
        let rating = match read_field::<Vec<Entry>>(j, "rating") {
            Ok(group) => group,
            Err(e) => return Err(e),
        };
        let general = match read_field::<Vec<Entry>>(j, "general") {
            Ok(group) => group,
            Err(e) => return Err(e),
        };
        Ok(IllustrationOutput { character, copyright, rating, general })
    }
}

/// The request of [`Illustration`]: the image's reference and, where the caller wants
/// only some tags, their names.
#[derive(Debug, PartialEq)]
pub struct IllustrationInput {
    pub image: String,
    pub tags: Option<Vec<String>>,
}

/// The mathematical value of an [`IllustrationInput`].
pub struct IllustrationInputView {
    pub image: Seq<char>,
    pub tags: Option<Seq<Seq<char>>>,
}

impl DeepView for IllustrationInput {
    type V = IllustrationInputView;

    open spec fn deep_view(&self) -> IllustrationInputView {
        IllustrationInputView { image: self.image@, tags: self.tags.deep_view() }
    }
}

impl Encode for IllustrationInput {
    /// An object with the field `image` and, only where names are given, the field
    /// `tags`.
    open spec fn wire(v: IllustrationInputView) -> JsonValue {
        match v.tags {
            Some(names) => JsonValue::Object(
                seq![
                    ("image"@, JsonValue::Text(v.image)),
                    ("tags"@, <Vec<String> as Encode>::wire(names)),
                ],
            ),
            None => JsonValue::Object(seq![("image"@, JsonValue::Text(v.image))]),
        }
    }

    fn encode(&self) -> (j: Json) {
        let mut fields: Vec<(String, Json)> = Vec::new();
        fields.push(("image".to_owned(), Json::Text(self.image.clone())));
        if let Some(names) = &self.tags {
            fields.push(("tags".to_owned(), names.encode()));
        }
        proof {
            lemma_object_view(fields);
            assert(Json::Object(fields).deep_view()->Object_0 =~= Self::wire(
                self.deep_view(),
            )->Object_0);
        }
        Json::Object(fields)
    }
}

impl Decode for IllustrationInput {
    /// An object with a string `image` and, where it has one, an array of strings
    /// `tags`.
    open spec fn parse(j: JsonValue) -> Option<IllustrationInputView> {
        match (
            field_as::<String>(j, "image"@),
            optional_field_as::<Vec<String>>(j, "tags"@),
        ) {
            (Some(image), Some(tags)) => Some(IllustrationInputView { image, tags }),
            _ => None,
        }
    }

    fn decode(j: &Json) -> (r: Result<IllustrationInput, Error>) {
        let image = match read_field::<String>(j, "image") {
            Ok(s) => s,
            Err(e) => return Err(e),
        };
        let tags = match read_optional_field::<Vec<String>>(j, "tags") {
            Ok(names) => names,
            Err(e) => return Err(e),
        };
        Ok(IllustrationInput { image, tags })
    }
}

/// The two keys of the request differ.
proof fn lemma_illustration_keys()
    ensures
        "image"@ != "tags"@,
{
    reveal_strlit("image");
    reveal_strlit("tags");
    assert("image"@.len() == 5);
    assert("tags"@.len() == 4);
}

/// Where the request names no tags, it has no field `tags` at all; where it names some,
/// the field holds them.
pub proof fn lemma_filter_is_left_out(v: IllustrationInputView)
    ensures
        v.tags is None ==> IllustrationInput::wire(v).field("tags"@) is None,
        v.tags matches Some(names) ==> IllustrationInput::wire(v).field("tags"@) == Some(
            <Vec<String> as Encode>::wire(names),
        ),
{
    lemma_illustration_keys();
    let fields = IllustrationInput::wire(v)->Object_0;
    assert(lookup(fields.drop_first(), "tags"@) == match v.tags {
        Some(names) => Some(<Vec<String> as Encode>::wire(names)),
        None => None,
    }) by {
        if v.tags is Some {
            assert(fields.drop_first()[0] == fields[1]);
        }
        assert(fields.drop_first().len() == fields.len() - 1);
    }
}

/// A request that is written and read again is the same request.
pub proof fn lemma_illustration_input_round_trip(v: IllustrationInputView)
    ensures
        <IllustrationInput as Decode>::parse(<IllustrationInput as Encode>::wire(v)) == Some(v),
{
    lemma_filter_is_left_out(v);
    let fields = IllustrationInput::wire(v)->Object_0;
    assert(lookup(fields, "image"@) == Some(JsonValue::Text(v.image)));
    if v.tags is Some {
        lemma_strings_round_trip(v.tags.unwrap());
    }
}

/// What [`Illustration`] reports besides the general tags.
#[derive(Debug, PartialEq)]
pub struct IllustrationExtra {
    pub character: Vec<Tag>,
    pub copyright: Vec<Tag>,
    pub rating: Vec<Tag>,
}

/// The mathematical value of an [`IllustrationExtra`].
pub struct IllustrationExtraView {
    pub character: Seq<TagView>,
    pub copyright: Seq<TagView>,
    pub rating: Seq<TagView>,
}

impl DeepView for IllustrationExtra {
    type V = IllustrationExtraView;

    open spec fn deep_view(&self) -> IllustrationExtraView {
        IllustrationExtraView {
            character: self.character.deep_view(),
            copyright: self.copyright.deep_view(),
            rating: self.rating.deep_view(),
        }
    }
}

/// The tagger of illustrations. Where `whitelist` names tags, the algorithm reports
/// only those; where it is empty, the algorithm reports what it finds.
#[derive(Debug, PartialEq)]
pub struct Illustration {
    pub whitelist: Vec<String>,
}

impl Default for Illustration {
    fn default() -> (r: Illustration)
        ensures
            r.whitelist@.len() == 0,
    {
        Illustration { whitelist: Vec::new() }
    }
}

/// A copy of `names`.
fn copy_of(names: &Vec<String>) -> (copy: Vec<String>)
    ensures
        copy.deep_view() == names.deep_view(),
{
    let mut copy: Vec<String> = Vec::new();
    let mut i: usize = 0;
    while i < names.len()
        invariant
            i <= names.len(),
            copy.len() == i,
            forall|k: int| 0 <= k < i ==> (#[trigger] copy@[k])@ == names@[k]@,
        decreases names.len() - i,
    {
        copy.push(names[i].clone());
        i += 1;
    }
    assert(copy.deep_view() =~= names.deep_view());
    copy
}

impl ClassifierAlgo for Illustration {
    type Extra = IllustrationExtra;

    type Input = IllustrationInput;

    type Output = IllustrationOutput;

    open spec fn name() -> Seq<char> {
        "deeplearning/IllustrationTagger/0.2"@
    }

    /// The reference, and the whitelist where it names anything. An empty whitelist is
    /// no filter: the request then names no tags at all.
    open spec fn input(&self, data_uri: Seq<char>) -> IllustrationInputView {
        IllustrationInputView {
            image: data_uri,
            tags: if self.whitelist@.len() == 0 {
                None
            } else {
                Some(self.whitelist.deep_view())
            },
        }
    }

    /// The general group as the tags, the three other groups as the extra.
    open spec fn classification(&self, output: IllustrationOutputView) -> ClassificationView<
        IllustrationExtraView,
    > {
        ClassificationView {
            tags: output.general,
            extra: IllustrationExtraView {
                character: output.character,
                copyright: output.copyright,
                rating: output.rating,
            },
        }
    }

    proof fn input_round_trip(&self, data_uri: Seq<char>) {
        lemma_illustration_input_round_trip(self.input(data_uri));
    }

    fn algo() -> (id: &'static str) {
        "deeplearning/IllustrationTagger/0.2"
    }

    fn make_input(&self, data_uri: &str) -> (input: IllustrationInput) {
        let tags = if self.whitelist.is_empty() {
            None
        } else {
            Some(copy_of(&self.whitelist))
        };
        IllustrationInput { image: data_uri.to_owned(), tags }
    }

    fn from_output(&self, output: IllustrationOutput) -> (c: Classification<IllustrationExtra>) {
        Classification {
            tags: to_tags(&output.general),
            extra: IllustrationExtra {
                character: to_tags(&output.character),
                copyright: to_tags(&output.copyright),
                rating: to_tags(&output.rating),
            },
        }
    }
}

} // verus!
