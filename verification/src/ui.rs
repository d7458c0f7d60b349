//! The form's submission logic: URL validation, the status cell's state
//! machine, and the deterministic choice of the output filename.

use vstd::prelude::*;
use vstd::string::StringExecFns;
use crate::text::{blank, is_blank, starts_with, str_starts_with};

verus! {

/// The status cell shown beside the form. A request moves it from `Idle`
/// through `Downloading` to one of the terminal outcomes; a rejected
/// submission jumps straight to its error without dispatching any work.
#[derive(Clone, Debug, PartialEq)]
pub enum Status {
    Idle,
    EmptyUrl,
    InvalidUrl,
    Downloading,
    Success { path: String },
    Failure { message: String },
}

/// A URL is well formed for submission when it begins with one of the two
/// accepted scheme prefixes.
pub open spec fn has_scheme(s: Seq<char>) -> bool {
    starts_with(s, "http://"@) || starts_with(s, "https://"@)
}

/// A submission is accepted exactly when the URL is not blank and carries
/// an accepted scheme prefix.
pub open spec fn accepted(url: Seq<char>) -> bool {
    !blank(url) && has_scheme(url)
}

/// The status right after a submission: the fixed empty-URL error for a
/// blank URL, the fixed invalid-URL error for a URL without an accepted
/// scheme, and the downloading notice for an accepted one.
pub open spec fn submitted_status(url: Seq<char>) -> Status {
    if blank(url) {
        Status::EmptyUrl
    } else if !has_scheme(url) {
        Status::InvalidUrl
    } else {
        Status::Downloading
    }
}

/// The output filename that the audio-only toggle selects.
pub open spec fn chosen_filename(audio_only: bool) -> Seq<char> {
    if audio_only {
        "audio.mp3"@
    } else {
        "video.mp4"@
    }
}

/// The terminal status for the outcome reported by the process wrapper:
/// success keeps the returned path, failure keeps the error text.
pub open spec fn completed_status(outcome: Result<String, String>) -> Status {
    match outcome {
        Ok(path) => Status::Success { path },
        Err(message) => Status::Failure { message },
    }
}

pub fn is_valid_url(url: &str) -> (b: bool)
    ensures
        b == has_scheme(url@),
{
    str_starts_with(url, "http://") || str_starts_with(url, "https://")
}

pub fn output_filename(audio_only: bool) -> (name: String)
    ensures
        name@ == chosen_filename(audio_only),
{
    if audio_only {
        "audio.mp3".to_owned()
    } else {
        "video.mp4".to_owned()
    }
}

/// The work that an accepted submission hands to the process wrapper.
#[derive(Clone, Debug)]
pub struct Dispatch {
    pub url: String,
    pub filename: String,
}

/// Validate one submission. The returned status is the one the form shows
/// at once; the dispatch, present exactly for accepted URLs, carries the
/// URL verbatim and the filename chosen by the toggle.
pub fn submit(url: &str, audio_only: bool) -> (r: (Status, Option<Dispatch>))
    ensures
        r.0 == submitted_status(url@),
        r.1 is Some <==> accepted(url@),
        r.1 matches Some(d) ==> d.url@ == url@ && d.filename@ == chosen_filename(audio_only),
{
    if is_blank(url) {
        return (Status::EmptyUrl, None);
    }
    if !is_valid_url(url) {
        return (Status::InvalidUrl, None);
    }
    let dispatch = Dispatch { url: url.to_owned(), filename: output_filename(audio_only) };
    (Status::Downloading, Some(dispatch))
}

/// Fold the wrapper's outcome into the terminal status.
pub fn complete(outcome: Result<String, String>) -> (s: Status)
    ensures
        s == completed_status(outcome),
{
    match outcome {
        Ok(path) => Status::Success { path },
        Err(message) => Status::Failure { message },
    }
}

impl Status {
    /// The exact text the form renders for this status.
    pub open spec fn spec_message(self) -> Seq<char> {
        match self {
            Status::Idle => "Idle"@,
            Status::EmptyUrl => "❌ Please enter a URL"@,
            Status::InvalidUrl => "❌ Please enter a valid URL (http:// or https://)"@,
            Status::Downloading => "⏳ Downloading..."@,
            Status::Success { path } => "✅ Downloaded to "@ + path@,
            Status::Failure { message } => "❌ Download failed: "@ + message@,
        }
    }

    pub fn message(&self) -> (m: String)
        ensures
            m@ == self.spec_message(),
    {
        match self {
            Status::Idle => "Idle".to_owned(),
            Status::EmptyUrl => "❌ Please enter a URL".to_owned(),
            Status::InvalidUrl => "❌ Please enter a valid URL (http:// or https://)".to_owned(),
            Status::Downloading => "⏳ Downloading...".to_owned(),
            Status::Success { path } => String::from_str("✅ Downloaded to ").concat(
                path.as_str(),
            ),
            Status::Failure { message } => String::from_str("❌ Download failed: ").concat(
                message.as_str(),
            ),
        }
    }
}

/// An accepted submission shows the downloading notice at dispatch, and
/// every outcome the wrapper can report lands in a terminal status that
/// embeds the returned path or the error text: the status is never left at
/// idle or at downloading once the task resolves.
pub proof fn lemma_submission_resolves(url: Seq<char>, outcome: Result<String, String>)
    ensures
        accepted(url) ==> submitted_status(url) is Downloading,
        !accepted(url) ==> (submitted_status(url) is EmptyUrl || submitted_status(url)
            is InvalidUrl),
        completed_status(outcome) !is Idle && completed_status(outcome) !is Downloading,
        outcome matches Ok(path) ==> completed_status(outcome) == (Status::Success { path }),
        outcome matches Err(message) ==> completed_status(outcome) == (Status::Failure {
            message,
        }),
{
}

} // verus!
