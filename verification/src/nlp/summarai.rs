//! The summarizer `SummarAI/Summarizer`, which answers with the summary and with the
//! keywords of the text by rank.

use crate::dispatch::{Exchange, Job};
use crate::error::Error;
use crate::image::Source;
use crate::wire::{field_as, read_field};
use crate::wire::{Decode, Json, JsonValue, Payload, PayloadView, Reply, ReplyView};
use crate::wire::{Request, RequestView};
use vstd::prelude::*;

verus! {

/// A summary and the keywords of the text, the most important first.
#[derive(Debug, PartialEq)]
pub struct Summary {
    pub summary: String,
    pub keywords: Vec<String>,
}

/// The mathematical value of a [`Summary`].
pub struct SummaryView {
    pub summary: Seq<char>,
    pub keywords: Seq<Seq<char>>,
}

impl DeepView for Summary {
    type V = SummaryView;

    open spec fn deep_view(&self) -> SummaryView {
        SummaryView { summary: self.summary@, keywords: self.keywords.deep_view() }
    }
}

/// The reply of the summarizer.
#[derive(Debug, PartialEq)]
pub struct Output {
    pub summarized_data: String,
    pub auto_gen_ranked_keywords: Vec<String>,
}

impl DeepView for Output {
    type V = SummaryView;

    open spec fn deep_view(&self) -> SummaryView {
        SummaryView {
            summary: self.summarized_data@,
            keywords: self.auto_gen_ranked_keywords.deep_view(),
        }
    }
}

impl Decode for Output {
    /// An object with a string `summarized_data` and an array of strings
    /// `auto_gen_ranked_keywords`.
    open spec fn parse(j: JsonValue) -> Option<SummaryView> {
        match (
            field_as::<String>(j, "summarized_data"@),
            field_as::<Vec<String>>(j, "auto_gen_ranked_keywords"@),
        ) {
            (Some(summary), Some(keywords)) => Some(SummaryView { summary, keywords }),
            _ => None,
        }
    }

    fn decode(j: &Json) -> (r: Result<Output, Error>) {
        let summarized_data = match read_field::<String>(j, "summarized_data") {
            Ok(s) => s,
            Err(e) => return Err(e),
        };
        let auto_gen_ranked_keywords = match read_field::<Vec<String>>(
            j,
            "auto_gen_ranked_keywords",
        ) {
            Ok(list) => list,
            Err(e) => return Err(e),
        };
        Ok(Output { summarized_data, auto_gen_ranked_keywords })
    }
}

/// The exchange that summarizes a text.
pub struct Summarizing {
    pub text: String,
}

impl Exchange for Summarizing {
    type Output = Summary;

    /// No image.
    open spec fn arity(&self, n: nat) -> bool {
        n == 0
    }

    /// The text, sent as plain text.
    open spec fn call(&self, uris: Seq<Seq<char>>) -> RequestView {
        RequestView { algo: "SummarAI/Summarizer/0.1"@, input: PayloadView::Text(self.text@) }
    }

    /// The summary and the keywords that the reply holds.
    open spec fn result(&self, reply: ReplyView) -> Option<SummaryView> {
        reply.parse::<Output>()
    }

    fn request(&self, uris: &Vec<String>) -> (r: Request) {
        Request {
            algo: "SummarAI/Summarizer/0.1".to_owned(),
            input: Payload::Text(self.text.clone()),
        }
    }

    fn outcome(&self, reply: Reply) -> (r: Result<Summary, Error>) {
        match reply.decode::<Output>() {
            Ok(resp) => Ok(
                Summary { summary: resp.summarized_data, keywords: resp.auto_gen_ranked_keywords },
            ),
            Err(e) => Err(e),
        }
    }
}

/// The job that summarizes `text` with `SummarAI/Summarizer`.
pub fn summarize(text: &str) -> (job: Job<'static, Summarizing>)
    ensures
        job.exchange().text@ == text@,
        job.sources() == Seq::<crate::image::SourceView>::empty(),
        job.uris() == Seq::<Seq<char>>::empty(),
{
    let sources: Vec<Source<'static>> = Vec::new();
    assert(sources.deep_view() =~= Seq::<crate::image::SourceView>::empty());
    Job::new(Summarizing { text: text.to_owned() }, sources)
}

} // verus!
