//! Classification: the result types, and what an algorithm must say of itself to be
//! called through the library.

use crate::dispatch::{Exchange, Job};
use crate::error::Error;
use crate::image::classifiers::InceptionNet;
use crate::image::{Source, SourceView};
use crate::wire::{decoded, field_as, lemma_object_view, lookup, read_field};
use crate::wire::{Decode, Encode, Json, JsonValue, Payload, PayloadView, Reply, ReplyView};
use crate::wire::{Request, RequestView, Score};
use vstd::prelude::*;

verus! {

/// One label that an algorithm gave an image, with the algorithm's confidence in it.
/// The scale of the confidence is the algorithm's own.
#[derive(Debug, PartialEq)]
pub struct Tag {
    pub confidence: Score,
    pub class: String,
}

/// The mathematical value of a [`Tag`].
pub struct TagView {
    pub confidence: Score,
    pub class: Seq<char>,
}

impl DeepView for Tag {
    type V = TagView;

    open spec fn deep_view(&self) -> TagView {
        TagView { confidence: self.confidence, class: self.class@ }
    }
}

impl Decode for Tag {
    /// An object with a number `confidence` and a string `class`.
    open spec fn parse(j: JsonValue) -> Option<TagView> {
        match (field_as::<Score>(j, "confidence"@), field_as::<String>(j, "class"@)) {
            (Some(confidence), Some(class)) => Some(TagView { confidence, class }),
            _ => None,
        }
    }

    fn decode(j: &Json) -> (r: Result<Tag, Error>) {
        let confidence = match read_field::<Score>(j, "confidence") {
            Ok(x) => x,
            Err(e) => return Err(e),
        };
        let class = match read_field::<String>(j, "class") {
            Ok(s) => s,
            Err(e) => return Err(e),
        };
        Ok(Tag { confidence, class })
    }
}

/// What an algorithm found in an image: its tags, in the algorithm's order, and
/// whatever else the algorithm reports.
#[derive(Debug, PartialEq)]
pub struct Classification<E> {
    pub tags: Vec<Tag>,
    pub extra: E,
}

/// The mathematical value of a [`Classification`].
pub struct ClassificationView<X> {
    pub tags: Seq<TagView>,
    pub extra: X,
}

impl<E: DeepView> DeepView for Classification<E> {
    type V = ClassificationView<E::V>;

    open spec fn deep_view(&self) -> ClassificationView<E::V> {
        ClassificationView { tags: self.tags.deep_view(), extra: self.extra.deep_view() }
    }
}

/// A remote algorithm that classifies images. An implementation names the algorithm,
/// builds the request for an image and says what the algorithm's output means; the
/// library does the rest.
pub trait ClassifierAlgo {
    /// What the algorithm reports besides tags.
    type Extra: DeepView;

    /// The shape of the request.
    type Input: Encode + Decode;

    /// The shape of the reply.
    type Output: Decode;

    /// The identifier and version of the algorithm.
    spec fn name() -> Seq<char>;

    /// The request for the image at `data_uri`.
    spec fn input(&self, data_uri: Seq<char>) -> <Self::Input as DeepView>::V;

    /// What `output` means.
    spec fn classification(&self, output: <Self::Output as DeepView>::V) -> ClassificationView<
        <Self::Extra as DeepView>::V,
    >;

    /// The request for an image, written and read again, is the same request.
    proof fn input_round_trip(&self, data_uri: Seq<char>)
        ensures
            <Self::Input as Decode>::parse(
                <Self::Input as Encode>::wire(self.input(data_uri)),
            ) == Some(self.input(data_uri)),
    ;

    fn algo() -> (id: &'static str)
        ensures
            id@ == Self::name(),
    ;

    fn make_input(&self, data_uri: &str) -> (input: Self::Input)
        ensures
            input.deep_view() == self.input(data_uri@),
    ;

    fn from_output(&self, output: Self::Output) -> (c: Classification<Self::Extra>)
        ensures
            c.deep_view() == self.classification(output.deep_view()),
    ;
}

/// A request that holds the image's reference under the key `image`.
#[derive(Debug, PartialEq)]
pub struct ImageWrapper {
    pub image: String,
}

impl DeepView for ImageWrapper {
    type V = Seq<char>;

    open spec fn deep_view(&self) -> Seq<char> {
        self.image@
    }
}

impl Encode for ImageWrapper {
    open spec fn wire(v: Seq<char>) -> JsonValue {
        JsonValue::Object(seq![("image"@, JsonValue::Text(v))])
    }

    fn encode(&self) -> (j: Json) {
        let mut fields: Vec<(String, Json)> = Vec::new();
        fields.push(("image".to_owned(), Json::Text(self.image.clone())));
        proof {
            lemma_object_view(fields);
            assert(fields.deep_view() =~= seq![("image"@, JsonValue::Text(self.image@))]);
        }
        Json::Object(fields)
    }
}

impl Decode for ImageWrapper {
    /// An object with a string `image`.
    open spec fn parse(j: JsonValue) -> Option<Seq<char>> {
        field_as::<String>(j, "image"@)
    }

    fn decode(j: &Json) -> (r: Result<ImageWrapper, Error>) {
        match read_field::<String>(j, "image") {
            Ok(image) => Ok(ImageWrapper { image }),
            Err(e) => Err(e),
        }
    }
}

/// A wrapped reference that is written and read again is the same reference.
pub proof fn lemma_image_wrapper_round_trip(v: Seq<char>)
    ensures
        <ImageWrapper as Decode>::parse(<ImageWrapper as Encode>::wire(v)) == Some(v),
{
    let fields = seq![("image"@, JsonValue::Text(v))];
    assert(lookup(fields, "image"@) == Some(JsonValue::Text(v)));
}

/// The call that classifies the image at `data_uri` with `classifier_algo`.
pub open spec fn request_spec<C: ClassifierAlgo>(classifier_algo: &C, data_uri: Seq<char>)
    -> RequestView {
    RequestView {
        algo: C::name(),
        input: PayloadView::Json(C::Input::wire(classifier_algo.input(data_uri))),
    }
}

/// What `reply` means as an answer of `classifier_algo`, where it has the shape that the
/// algorithm's output has.
pub open spec fn tag_spec<C: ClassifierAlgo>(classifier_algo: &C, reply: ReplyView) -> Option<
    ClassificationView<<C::Extra as DeepView>::V>,
> {
    match reply.parse::<C::Output>() {
        Some(output) => Some(classifier_algo.classification(output)),
        None => None,
    }
}

/// Builds the call that classifies the image at `data_uri` with `classifier_algo`.
pub fn request<C: ClassifierAlgo>(classifier_algo: &C, data_uri: &str) -> (r: Request)
    ensures
        r.deep_view() == request_spec(classifier_algo, data_uri@),
{
    let input = classifier_algo.make_input(data_uri);
    Request { algo: C::algo().to_owned(), input: Payload::Json(input.encode()) }
}

/// Reads the reply to a call that [`request`] built: the classification that the
/// algorithm's output means, or a decoding failure where the reply has another shape.
pub fn tag<C: ClassifierAlgo>(classifier_algo: &C, reply: &Reply) -> (r: Result<
    Classification<C::Extra>,
    Error,
>)
    ensures
        decoded(r, tag_spec(classifier_algo, reply.deep_view())),
{
    match reply.decode::<C::Output>() {
        Ok(output) => Ok(classifier_algo.from_output(output)),
        Err(e) => Err(e),
    }
}

/// The exchange that classifies one image with a given algorithm.
pub struct Tagging<'a, C: ClassifierAlgo> {
    pub algo: &'a C,
}

impl<'a, C: ClassifierAlgo> Exchange for Tagging<'a, C> {
    type Output = Classification<C::Extra>;

    /// One image.
    open spec fn arity(&self, n: nat) -> bool {
        n == 1
    }

    open spec fn call(&self, uris: Seq<Seq<char>>) -> RequestView {
        request_spec(self.algo, uris[0])
    }

    open spec fn result(&self, reply: ReplyView) -> Option<
        ClassificationView<<C::Extra as DeepView>::V>,
    > {
        tag_spec(self.algo, reply)
    }

    fn request(&self, uris: &Vec<String>) -> (r: Request) {
        assert(uris.deep_view()[0] == uris@[0]@);
        request(self.algo, uris[0].as_str())
    }

    fn outcome(&self, reply: Reply) -> (r: Result<Classification<C::Extra>, Error>) {
        tag(self.algo, &reply)
    }
}

/// The exchange that asks the general-purpose classifier for the tags of one image.
pub struct Labelling;

impl Exchange for Labelling {
    type Output = Vec<Tag>;

    /// One image.
    open spec fn arity(&self, n: nat) -> bool {
        n == 1
    }

    open spec fn call(&self, uris: Seq<Seq<char>>) -> RequestView {
        request_spec(&InceptionNet, uris[0])
    }

    /// The tags of the classification; what else it holds is dropped.
    open spec fn result(&self, reply: ReplyView) -> Option<Seq<TagView>> {
        match tag_spec(&InceptionNet, reply) {
            Some(c) => Some(c.tags),
            None => None,
        }
    }

    fn request(&self, uris: &Vec<String>) -> (r: Request) {
        assert(uris.deep_view()[0] == uris@[0]@);
        request(&InceptionNet, uris[0].as_str())
    }

    fn outcome(&self, reply: Reply) -> (r: Result<Vec<Tag>, Error>) {
        match tag(&InceptionNet, &reply) {
            Ok(c) => Ok(c.tags),
            Err(e) => Err(e),
        }
    }
}

/// Classifies an image.
pub trait Classifier<'a>: Sized {
    /// Where the image comes from.
    spec fn origin(&self) -> SourceView;

    /// The job that classifies the image with the general-purpose classifier and yields
    /// its tags.
    fn classify(self) -> (job: Job<'a, Labelling>)
        ensures
            job.exchange() == Labelling,
            job.sources() == seq![self.origin()],
            job.uris() == Seq::<Seq<char>>::empty(),
    ;

    /// The job that classifies the image with `classifier_algo`.
    fn classify_with<C: ClassifierAlgo>(self, classifier_algo: &'a C) -> (job: Job<
        'a,
        Tagging<'a, C>,
    >)
        ensures
            job.exchange() == (Tagging { algo: classifier_algo }),
            job.sources() == seq![self.origin()],
            job.uris() == Seq::<Seq<char>>::empty(),
    ;
}

impl<'a> Classifier<'a> for Source<'a> {
    open spec fn origin(&self) -> SourceView {
        self.deep_view()
    }

    fn classify(self) -> (job: Job<'a, Labelling>) {
        let mut sources: Vec<Source<'a>> = Vec::new();
        sources.push(self);
        assert(sources.deep_view() =~= seq![self.deep_view()]);
        Job::new(Labelling, sources)
    }

    fn classify_with<C: ClassifierAlgo>(self, classifier_algo: &'a C) -> (job: Job<
        'a,
        Tagging<'a, C>,
    >) {
        let mut sources: Vec<Source<'a>> = Vec::new();
        sources.push(self);
        assert(sources.deep_view() =~= seq![self.deep_view()]);
        Job::new(Tagging { algo: classifier_algo }, sources)
    }
}

} // verus!
