//! The course of one operation: which sources are staged, in what order, when the
//! remote algorithm is called and what ends the operation.
//!
//! The library performs none of these steps. A [`Job`] says which step is next; the
//! caller performs it and reports what came of it.

use crate::error::Error;
use crate::image::{is_path_name, is_stream_name, name_for_path, name_for_stream};
use crate::image::{extension, signature_format, Source, SourceView, BlobHandle};
use crate::wire::{decoded, Reply, ReplyView, Request, RequestView};
use vstd::prelude::*;

verus! {

/// One exchange with a remote algorithm: what it is asked, given the references of the
/// staged sources, and what its reply means.
pub trait Exchange {
    /// What the operation yields.
    type Output: DeepView;

    /// The exchange reads `n` sources.
    spec fn arity(&self, n: nat) -> bool;

    /// The call that is made for sources that are staged at `uris`.
    spec fn call(&self, uris: Seq<Seq<char>>) -> RequestView;

    /// What `reply` means, where it has the shape that the exchange expects.
    spec fn result(&self, reply: ReplyView) -> Option<<Self::Output as DeepView>::V>;

    fn request(&self, uris: &Vec<String>) -> (r: Request)
        requires
            self.arity(uris@.len()),
        ensures
            r.deep_view() == self.call(uris.deep_view()),
    ;

    fn outcome(&self, reply: Reply) -> (r: Result<Self::Output, Error>)
        ensures
            decoded(r, self.result(reply.deep_view())),
    ;
}

/// The references that are known once the sources from the one at `uris.len()` on that
/// are already on the remote platform have been passed: `uris`, and the location of each
/// such source, in the sources' order.
pub open spec fn settled(sources: Seq<SourceView>, uris: Seq<Seq<char>>) -> Seq<Seq<char>>
    decreases sources.len() - uris.len(),
{
    if uris.len() < sources.len() {
        match sources[uris.len() as int].location() {
            Some(uri) => settled(sources, uris.push(uri)),
            None => uris,
        }
    } else {
        uris
    }
}

/// What is settled keeps the order of the sources: the references that were known stay
/// where they were, each reference that is added is the location of the source at its
/// position, and the first source that is left, if one is, is not yet on the platform.
pub proof fn lemma_settled_keeps_order(sources: Seq<SourceView>, uris: Seq<Seq<char>>)
    requires
        uris.len() <= sources.len(),
    ensures
        uris.len() <= settled(sources, uris).len() <= sources.len(),
        forall|i: int| 0 <= i < uris.len() ==> settled(sources, uris)[i] == uris[i],
        forall|i: int|
            uris.len() <= i < settled(sources, uris).len() ==> sources[i].location() == Some(
                settled(sources, uris)[i],
            ),
        settled(sources, uris).len() < sources.len() ==> sources[settled(
            sources,
            uris,
        ).len() as int].location() is None,
    decreases sources.len() - uris.len(),
{
    if uris.len() < sources.len() {
        match sources[uris.len() as int].location() {
            Some(uri) => {
                lemma_settled_keeps_order(sources, uris.push(uri));
                assert forall|i: int| 0 <= i < uris.len() implies settled(sources, uris)[i]
                    == uris[i] by {
                    assert(uris.push(uri)[i] == uris[i]);
                }
                assert(uris.push(uri)[uris.len() as int] == uri);
            },
            None => {},
        }
    }
}

/// Which source is staged next does not depend on the sources behind it: two lists of
/// sources that agree up to the first source that needs staging settle the same
/// references.
pub proof fn lemma_later_sources_are_not_looked_at(
    a: Seq<SourceView>,
    b: Seq<SourceView>,
    uris: Seq<Seq<char>>,
)
    requires
        uris.len() <= a.len(),
        settled(a, uris).len() < a.len(),
        settled(a, uris).len() < b.len(),
        forall|i: int| 0 <= i <= settled(a, uris).len() ==> a[i] == b[i],
    ensures
        settled(b, uris) == settled(a, uris),
    decreases a.len() - uris.len(),
{
    lemma_settled_keeps_order(a, uris);
    if uris.len() < a.len() {
        match a[uris.len() as int].location() {
            Some(uri) => {
                lemma_later_sources_are_not_looked_at(a, b, uris.push(uri));
            },
            None => {},
        }
    }
}

/// Sources that are all on the remote platform already need no staging: the call is
/// made at once, with their locations in their order.
pub proof fn lemma_remote_sources_need_no_staging(sources: Seq<SourceView>)
    requires
        forall|i: int| 0 <= i < sources.len() ==> (#[trigger] sources[i]).location() is Some,
    ensures
        settled(sources, Seq::empty()).len() == sources.len(),
        forall|i: int|
            0 <= i < sources.len() ==> sources[i].location() == Some(
                #[trigger] settled(sources, Seq::empty())[i],
            ),
{
    lemma_settled_keeps_order(sources, Seq::empty());
}

/// An operation on its way: the exchange to make, the sources it reads and the
/// references of those that are staged so far.
pub struct Job<'a, X: Exchange> {
    exchange: X,
    sources: Vec<Source<'a>>,
    uris: Vec<String>,
}

/// A job that waits for the content of its next source.
pub struct Reading<'a, X: Exchange> {
    job: Job<'a, X>,
}

/// A job that waits for its next source to be uploaded.
pub struct Uploading<'a, X: Exchange> {
    job: Job<'a, X>,
}

/// A job that waits for the reply of the remote algorithm.
pub struct Calling<X: Exchange> {
    exchange: X,
}

/// What the caller does next.
pub enum Step<'a, X: Exchange> {
    /// Read the source at `index()` to its end and report the bytes with `content`.
    Read(Reading<'a, X>),
    /// Upload the source at `index()` under the given name in the staging directory and
    /// report its handle with `uploaded`.
    Upload(Uploading<'a, X>, String),
    /// Make the call and report the reply with `replied`.
    Invoke(Calling<X>, Request),
    /// Nothing: the operation has ended.
    Finish(Result<X::Output, Error>),
}

impl<'a, X: Exchange> Job<'a, X> {
    #[verifier::type_invariant]
    spec fn inv(&self) -> bool {
        &&& self.exchange.arity(self.sources@.len())
        &&& self.uris@.len() <= self.sources@.len()
    }

    /// The exchange that the job makes.
    pub closed spec fn exchange(&self) -> X {
        self.exchange
    }

    /// The sources that the job reads.
    pub closed spec fn sources(&self) -> Seq<SourceView> {
        self.sources.deep_view()
    }

    /// The references of the sources that are staged so far.
    pub closed spec fn uris(&self) -> Seq<Seq<char>> {
        self.uris.deep_view()
    }

    /// A job that has staged nothing yet.
    pub(crate) fn new(exchange: X, sources: Vec<Source<'a>>) -> (job: Job<'a, X>)
        requires
            exchange.arity(sources@.len()),
        ensures
            job.exchange() == exchange,
            job.sources() == sources.deep_view(),
            job.uris() == Seq::<Seq<char>>::empty(),
    {
        let job = Job { exchange, sources, uris: Vec::new() };
        assert(job.uris.deep_view() =~= Seq::<Seq<char>>::empty());
        job
    }

    /// The first step of the job.
    pub fn begin(self) -> (step: Step<'a, X>)
        ensures
            step.follows(self.exchange(), self.sources(), self.uris()),
    {
        self.advance()
    }

    /// Passes the sources that need no staging and says what the first of the others
    /// needs, or makes the call where none is left.
    fn advance(self) -> (step: Step<'a, X>)
        ensures
            step.follows(self.exchange(), self.sources(), self.uris()),
    {
        proof {
            use_type_invariant(&self);
        }
        let ghost start = self.uris.deep_view();
        let Job { exchange, sources, uris } = self;
        let mut uris = uris;
        loop
            invariant
                self.exchange() == exchange,
                self.sources() == sources.deep_view(),
                self.uris() == start,
                exchange.arity(sources@.len()),
                uris@.len() <= sources@.len(),
                settled(sources.deep_view(), uris.deep_view()) == settled(
                    sources.deep_view(),
                    start,
                ),
            decreases sources@.len() - uris@.len(),
        {
            let k = uris.len();
            if k >= sources.len() {
                let request = exchange.request(&uris);
                return Step::Invoke(Calling { exchange }, request);
            }
            assert(sources.deep_view()[k as int] == sources@[k as int].deep_view());
            match &sources[k] {
                Source::Remote(handle) => {
                    let uri = handle.to_data_uri();
                    let ghost before = uris.deep_view();
                    uris.push(uri);
                    assert(uris.deep_view() =~= before.push(handle.uri@));
                },
                Source::Shared(handle) => {
                    let uri = handle.to_data_uri();
                    let ghost before = uris.deep_view();
                    uris.push(uri);
                    assert(uris.deep_view() =~= before.push(handle.uri@));
                },
                Source::Path(Some(file_name)) => {
                    let name = name_for_path(file_name.as_str());
                    return Step::Upload(Uploading { job: Job { exchange, sources, uris } }, name);
                },
                _ => {
                    return Step::Read(Reading { job: Job { exchange, sources, uris } });
                },
            }
        }
    }
}

impl<'a, X: Exchange> Step<'a, X> {
    /// `self` is the step that is due where `exchange` reads `sources` and the first of
    /// them are staged at `uris`: the sources that need no staging are passed; the first
    /// of the others is read, or uploaded at once where it has a name; and where none
    /// is left, the call is made with the references of all sources, in their order.
    pub open spec fn follows(self, exchange: X, sources: Seq<SourceView>, uris: Seq<Seq<char>>)
        -> bool {
        let known = settled(sources, uris);
        if known.len() >= sources.len() {
            &&& self matches Step::Invoke(calling, request)
            &&& calling.exchange() == exchange
            &&& request.deep_view() == exchange.call(known)
        } else {
            match sources[known.len() as int] {
                SourceView::Path(Some(file_name)) => {
                    &&& self matches Step::Upload(uploading, name)
                    &&& uploading.exchange() == exchange
                    &&& uploading.sources() == sources
                    &&& uploading.uris() == known
                    &&& is_path_name(name@, file_name)
                },
                _ => {
                    &&& self matches Step::Read(reading)
                    &&& reading.exchange() == exchange
                    &&& reading.sources() == sources
                    &&& reading.uris() == known
                },
            }
        }
    }
}

impl<'a, X: Exchange> Reading<'a, X> {
    #[verifier::type_invariant]
    spec fn inv(&self) -> bool {
        self.job.uris@.len() < self.job.sources@.len()
    }

    /// The exchange that the job makes.
    pub closed spec fn exchange(&self) -> X {
        self.job.exchange
    }

    /// The sources that the job reads.
    pub closed spec fn sources(&self) -> Seq<SourceView> {
        self.job.sources.deep_view()
    }

    /// The references of the sources that are staged so far.
    pub closed spec fn uris(&self) -> Seq<Seq<char>> {
        self.job.uris.deep_view()
    }

    /// The position of the source that is to be read.
    pub fn index(&self) -> (i: usize)
        ensures
            i == self.uris().len(),
            i < self.sources().len(),
    {
        proof {
            use_type_invariant(self);
        }
        self.job.uris.len()
    }

    /// Takes what came of reading the source. A failure ends the job with that failure.
    /// Content of no known format ends it with a format failure. Other content is
    /// uploaded next, under a fresh name with the extension of its format.
    pub fn content(self, outcome: Result<Vec<u8>, Error>) -> (step: Step<'a, X>)
        ensures
            match outcome {
                Err(e) => step == Step::<'a, X>::Finish(Err(e)),
                Ok(bytes) => match signature_format(bytes@) {
                    None => step matches Step::Finish(Err(e)) && e is Format,
                    Some(format) => {
                        &&& step matches Step::Upload(uploading, name)
                        &&& uploading.exchange() == self.exchange()
                        &&& uploading.sources() == self.sources()
                        &&& uploading.uris() == self.uris()
                        &&& is_stream_name(name@, extension(format))
                    },
                },
            },
    {
        proof {
            use_type_invariant(&self);
        }
        match outcome {
            Err(e) => Step::Finish(Err(e)),
            Ok(bytes) => match name_for_stream(bytes.as_slice()) {
                Err(e) => Step::Finish(Err(e)),
                Ok(name) => Step::Upload(Uploading { job: self.job }, name),
            },
        }
    }
}

impl<'a, X: Exchange> Uploading<'a, X> {
    #[verifier::type_invariant]
    spec fn inv(&self) -> bool {
        self.job.uris@.len() < self.job.sources@.len()
    }

    /// The exchange that the job makes.
    pub closed spec fn exchange(&self) -> X {
        self.job.exchange
    }

    /// The sources that the job reads.
    pub closed spec fn sources(&self) -> Seq<SourceView> {
        self.job.sources.deep_view()
    }

    /// The references of the sources that are staged so far.
    pub closed spec fn uris(&self) -> Seq<Seq<char>> {
        self.job.uris.deep_view()
    }

    /// The position of the source that is to be uploaded.
    pub fn index(&self) -> (i: usize)
        ensures
            i == self.uris().len(),
            i < self.sources().len(),
    {
        proof {
            use_type_invariant(self);
        }
        self.job.uris.len()
    }

    /// Takes what came of the upload. A failure ends the job with that failure: no
    /// later source is touched and no call is made. A handle is taken as the reference
    /// of the source, and the job goes on with the next one.
    pub fn uploaded(self, outcome: Result<BlobHandle, Error>) -> (step: Step<'a, X>)
        ensures
            match outcome {
                Err(e) => step == Step::<'a, X>::Finish(Err(e)),
                Ok(handle) => step.follows(
                    self.exchange(),
                    self.sources(),
                    self.uris().push(handle.uri@),
                ),
            },
    {
        proof {
            use_type_invariant(&self);
        }
        match outcome {
            Err(e) => Step::Finish(Err(e)),
            Ok(handle) => {
                proof {
                    use_type_invariant(&self.job);
                }
                let Job { exchange, sources, uris } = self.job;
                let mut uris = uris;
                let ghost before = uris.deep_view();
                let ghost uri = handle.uri@;
                uris.push(handle.uri);
                assert(uris.deep_view() =~= before.push(uri));
                let job = Job { exchange, sources, uris };
                job.advance()
            },
        }
    }
}

impl<X: Exchange> Calling<X> {
    /// The exchange that the job makes.
    pub closed spec fn exchange(&self) -> X {
        self.exchange
    }

    /// Takes what came of the call. A failure ends the job with that failure. A reply
    /// ends it with what the reply means, or with a decoding failure where the reply
    /// has not the shape that the exchange expects.
    pub fn replied(self, outcome: Result<Reply, Error>) -> (r: Result<X::Output, Error>)
        ensures
            match outcome {
                Err(e) => r == Err::<X::Output, Error>(e),
                Ok(reply) => decoded(r, self.exchange().result(reply.deep_view())),
            },
    {
        match outcome {
            Err(e) => Err(e),
            Ok(reply) => self.exchange.outcome(reply),
        }
    }
}

} // verus!
