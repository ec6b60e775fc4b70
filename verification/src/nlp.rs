//! Text: the algorithms that summarize it.

pub mod classifier4j;
pub mod summarai;

use crate::dispatch::Job;
use crate::nlp::classifier4j::Summarizing;
use vstd::prelude::*;

verus! {

/// The job that summarizes `text`. It asks the [`classifier4j`] summarizer; which
/// algorithm stands behind this function may change from one release to the next.
pub fn summarize(text: &str) -> (job: Job<'static, Summarizing>)
    ensures
        job.exchange().text@ == text@,
        job.sources() == Seq::<crate::image::SourceView>::empty(),
        job.uris() == Seq::<Seq<char>>::empty(),
{
    classifier4j::summarize(text)
}

} // verus!
