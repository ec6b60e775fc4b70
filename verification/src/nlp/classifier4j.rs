//! The summarizer `nlp/summarizer`, which answers with the summary as plain text.

use crate::dispatch::{Exchange, Job};
use crate::error::Error;
use crate::image::Source;
use crate::wire::{Payload, PayloadView, Reply, ReplyView, Request, RequestView};
use vstd::prelude::*;

verus! {

/// The exchange that summarizes a text.
pub struct Summarizing {
    pub text: String,
}

impl Exchange for Summarizing {
    type Output = String;

    /// No image.
    open spec fn arity(&self, n: nat) -> bool {
        n == 0
    }

    /// The text, sent as plain text.
    open spec fn call(&self, uris: Seq<Seq<char>>) -> RequestView {
        RequestView { algo: "nlp/summarizer/0.1"@, input: PayloadView::Text(self.text@) }
    }

    /// The text of the reply. A reply that is not plain text holds no summary.
    open spec fn result(&self, reply: ReplyView) -> Option<Seq<char>> {
        reply.text()
    }

    fn request(&self, uris: &Vec<String>) -> (r: Request) {
        Request { algo: "nlp/summarizer/0.1".to_owned(), input: Payload::Text(self.text.clone()) }
    }

    fn outcome(&self, reply: Reply) -> (r: Result<String, Error>) {
        match reply.into_string() {
            Some(summary) => Ok(summary),
            None => Err(Error::decode("Algorithm did not output a string")),
        }
    }
}

/// The job that summarizes `text` with `nlp/summarizer`.
pub fn summarize(text: &str) -> (job: Job<'static, Summarizing>)
    ensures
        job.exchange().text@ == text@,
        job.sources() == Seq::<crate::image::SourceView>::empty(),
        job.uris() == Seq::<Seq<char>>::empty(),
{
    let sources: Vec<Source<'static>> = Vec::new();
    assert(sources.deep_view() =~= Seq::<crate::image::SourceView>::empty());
    Job::new(Summarizing { text: text.to_owned() }, sources)
}

} // verus!
