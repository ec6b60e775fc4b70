//! Colorization: the algorithm that turns black-and-white images into colour images,
//! one at a time or many in one call.

use crate::dispatch::{Exchange, Job};
use crate::error::Error;
use crate::image::{BlobHandle, ImageFile, Source, SourceView};
use crate::wire::{field_as, lemma_object_view, lemma_strings_round_trip, lookup, read_field};
use crate::wire::{Decode, Encode, Json, JsonValue, Payload, PayloadView, Reply, ReplyView};
use crate::wire::{Request, RequestView};
use vstd::prelude::*;

verus! {

/// The identifier and version of the colorizer.
pub open spec fn colorizer_name() -> Seq<char> {
    "deeplearning/ColorfulImageColorization/1.1"@
}

/// The request of the colorizer: the references of the images, also where there is
/// only one.
#[derive(Debug, PartialEq)]
pub struct ColorizerInput {
    pub image: Vec<String>,
}

impl DeepView for ColorizerInput {
    type V = Seq<Seq<char>>;

    open spec fn deep_view(&self) -> Seq<Seq<char>> {
        self.image.deep_view()
    }
}

impl Encode for ColorizerInput {
    /// An object whose field `image` is the array of the references.
    open spec fn wire(v: Seq<Seq<char>>) -> JsonValue {
        JsonValue::Object(seq![("image"@, <Vec<String> as Encode>::wire(v))])
    }

    fn encode(&self) -> (j: Json) {
        let mut fields: Vec<(String, Json)> = Vec::new();
        fields.push(("image".to_owned(), self.image.encode()));
        proof {
            lemma_object_view(fields);
            assert(fields.deep_view() =~= Self::wire(self.deep_view())->Object_0);
        }
        Json::Object(fields)
    }
}

impl Decode for ColorizerInput {
    /// An object whose field `image` is an array of strings.
    open spec fn parse(j: JsonValue) -> Option<Seq<Seq<char>>> {
        field_as::<Vec<String>>(j, "image"@)
    }

    fn decode(j: &Json) -> (r: Result<ColorizerInput, Error>) {
        match read_field::<Vec<String>>(j, "image") {
            Ok(image) => Ok(ColorizerInput { image }),
            Err(e) => Err(e),
        }
    }
}

/// A request that is written and read again is the same request: the same references in
/// the same order.
pub proof fn lemma_colorizer_input_round_trip(v: Seq<Seq<char>>)
    ensures
        <ColorizerInput as Decode>::parse(<ColorizerInput as Encode>::wire(v)) == Some(v),
{
    lemma_strings_round_trip(v);
    let fields = ColorizerInput::wire(v)->Object_0;
    assert(lookup(fields, "image"@) == Some(<Vec<String> as Encode>::wire(v)));
}

/// The reply of the colorizer: the references of the colour images.
#[derive(Debug, PartialEq)]
pub struct ColorizerOutput {
    pub output: Vec<String>,
}

impl DeepView for ColorizerOutput {
    type V = Seq<Seq<char>>;

    open spec fn deep_view(&self) -> Seq<Seq<char>> {
        self.output.deep_view()
    }
}

impl Decode for ColorizerOutput {
    /// An object whose field `output` is an array of strings.
    open spec fn parse(j: JsonValue) -> Option<Seq<Seq<char>>> {
        field_as::<Vec<String>>(j, "output"@)
    }

    fn decode(j: &Json) -> (r: Result<ColorizerOutput, Error>) {
        match read_field::<Vec<String>>(j, "output") {
            Ok(output) => Ok(ColorizerOutput { output }),
            Err(e) => Err(e),
        }
    }
}

/// The call that colorizes the images at `uris`: one call for all of them, with the
/// references in the given order.
pub open spec fn colorize_spec(uris: Seq<Seq<char>>) -> RequestView {
    RequestView {
        algo: colorizer_name(),
        input: PayloadView::Json(ColorizerInput::wire(uris)),
    }
}

/// Builds the call that colorizes the images at `uris`.
fn request(uris: &Vec<String>) -> (r: Request)
    ensures
        r.deep_view() == colorize_spec(uris.deep_view()),
{
    let mut image: Vec<String> = Vec::new();
    let mut i: usize = 0;
    while i < uris.len()
        invariant
            i <= uris.len(),
            image.len() == i,
            forall|k: int| 0 <= k < i ==> (#[trigger] image@[k])@ == uris@[k]@,
        decreases uris.len() - i,
    {
        image.push(uris[i].clone());
        i += 1;
    }
    assert(image.deep_view() =~= uris.deep_view());
    let input = ColorizerInput { image };
    Request {
        algo: "deeplearning/ColorfulImageColorization/1.1".to_owned(),
        input: Payload::Json(input.encode()),
    }
}

/// The exchange that colorizes one image.
pub struct Colorizing;

impl Exchange for Colorizing {
    type Output = ImageFile;

    /// One image.
    open spec fn arity(&self, n: nat) -> bool {
        n == 1
    }

    open spec fn call(&self, uris: Seq<Seq<char>>) -> RequestView {
        colorize_spec(uris)
    }

    /// The first reference of the reply. A reply that holds none has not the shape that
    /// the exchange expects.
    open spec fn result(&self, reply: ReplyView) -> Option<Seq<char>> {
        match reply.parse::<ColorizerOutput>() {
            Some(output) => if output.len() > 0 {
                Some(output[0])
            } else {
                None
            },
            None => None,
        }
    }

    fn request(&self, uris: &Vec<String>) -> (r: Request) {
        request(uris)
    }

    fn outcome(&self, reply: Reply) -> (r: Result<ImageFile, Error>) {
        match reply.decode::<ColorizerOutput>() {
            Ok(resp) => {
                if resp.output.len() == 0 {
                    return Err(Error::decode("the colorizer returned no image"));
                }
                assert(resp.deep_view().len() == resp.output@.len());
                assert(resp.deep_view()[0] == resp.output@[0]@);
                let file = ImageFile { file: BlobHandle::new(resp.output[0].as_str()) };
                assert(file.deep_view() == resp.deep_view()[0]);
                Ok(file)
            },
            Err(e) => Err(e),
        }
    }
}

/// The exchange that colorizes any number of images in one call.
pub struct BatchColorizing;

impl Exchange for BatchColorizing {
    type Output = Vec<ImageFile>;

    /// Any number of images.
    open spec fn arity(&self, n: nat) -> bool {
        true
    }

    open spec fn call(&self, uris: Seq<Seq<char>>) -> RequestView {
        colorize_spec(uris)
    }

    /// One image for each reference of the reply, at the reference's position. The
    /// platform is taken at its word that the reply follows the order of the request.
    open spec fn result(&self, reply: ReplyView) -> Option<Seq<Seq<char>>> {
        reply.parse::<ColorizerOutput>()
    }

    fn request(&self, uris: &Vec<String>) -> (r: Request) {
        request(uris)
    }

    fn outcome(&self, reply: Reply) -> (r: Result<Vec<ImageFile>, Error>) {
        match reply.decode::<ColorizerOutput>() {
            Ok(resp) => {
                let mut files: Vec<ImageFile> = Vec::new();
                let mut i: usize = 0;
                while i < resp.output.len()
                    invariant
                        i <= resp.output.len(),
                        files.len() == i,
                        forall|k: int|
                            0 <= k < i ==> (#[trigger] files@[k]).file.uri@ == resp.output@[k]@,
                    decreases resp.output.len() - i,
                {
                    files.push(ImageFile { file: BlobHandle::new(resp.output[i].as_str()) });
                    i += 1;
                }
                assert(files.deep_view() =~= resp.output.deep_view());
                Ok(files)
            },
            Err(e) => Err(e),
        }
    }
}

/// The images of a batch stand where the references of the reply stand: as many, in
/// the same order.
pub proof fn lemma_batch_keeps_positions(outputs: Seq<Seq<char>>)
    ensures
        BatchColorizing.result(
            ReplyView::Json(
                JsonValue::Object(seq![("output"@, <Vec<String> as Encode>::wire(outputs))]),
            ),
        ) == Some(outputs),
{
    lemma_strings_round_trip(outputs);
    let fields = seq![("output"@, <Vec<String> as Encode>::wire(outputs))];
    assert(lookup(fields, "output"@) == Some(<Vec<String> as Encode>::wire(outputs)));
}

/// Colorizes a black-and-white image.
pub trait Colorize<'a>: Sized {
    /// Where the image comes from.
    spec fn origin(&self) -> SourceView;

    /// The job that colorizes the image.
    fn colorize(self) -> (job: Job<'a, Colorizing>)
        ensures
            job.exchange() == Colorizing,
            job.sources() == seq![self.origin()],
            job.uris() == Seq::<Seq<char>>::empty(),
    ;
}

impl<'a> Colorize<'a> for Source<'a> {
    open spec fn origin(&self) -> SourceView {
        self.deep_view()
    }

    fn colorize(self) -> (job: Job<'a, Colorizing>) {
        let mut sources: Vec<Source<'a>> = Vec::new();
        sources.push(self);
        assert(sources.deep_view() =~= seq![self.deep_view()]);
        Job::new(Colorizing, sources)
    }
}

/// Colorizes black-and-white images in a single batch.
pub trait BatchColorize<'a>: Sized {
    /// Where the images come from.
    spec fn origins(&self) -> Seq<SourceView>;

    /// The job that colorizes the images: it stages them one after the other, in their
    /// order, and makes one call for all of them.
    fn colorize(self) -> (job: Job<'a, BatchColorizing>)
        ensures
            job.exchange() == BatchColorizing,
            job.sources() == self.origins(),
            job.uris() == Seq::<Seq<char>>::empty(),
    ;
}

impl<'a> BatchColorize<'a> for Vec<Source<'a>> {
    open spec fn origins(&self) -> Seq<SourceView> {
        self.deep_view()
    }

    fn colorize(self) -> (job: Job<'a, BatchColorizing>) {
        Job::new(BatchColorizing, self)
    }
}

} // verus!
