//! The error type itself: what it owns, how it names the kind of failure,
//! how it reports the failure in one string, and what it gives as its source.

use crate::causes::{
    borrow_mut_error_source, from_utf8_error_source, hyper_error_source, io_error_source,
    serde_json_error_source, source_of_borrow_mut_error, source_of_from_utf8_error,
    source_of_header_error, source_of_http_error, source_of_hyper_error, source_of_invalid_uri,
    source_of_io_error, source_of_serde_json_error, SourceRef,
};
use vstd::prelude::*;
use vstd::string::*;

verus! {

/// A failure of the client, told apart by where it came from.
///
/// Each variant owns the failure it was made from. There is no variant
/// without one, and no way to make a value from a bare message.
#[derive(Debug)]
pub enum TwilioErr {
    /// Local input or output failed.
    Io(std::io::Error),
    /// A text did not parse as a URI.
    UrlParse(http::uri::InvalidUri),
    /// The HTTP transport reported an error.
    NetworkErr(hyper::Error),
    /// JSON could not be encoded or decoded.
    SerdeErr(serde_json::Error),
    /// The shared client was already borrowed when exclusive access was asked.
    BorrowErr(std::cell::BorrowMutError),
    /// Bytes were not valid UTF-8 text.
    Utf8Err(std::string::FromUtf8Error),
    /// An HTTP request could not be built.
    HttpErr(http::Error),
    /// A typed header value could not be built.
    HeaderErr(typed_headers::Error),
}

/// What every fallible operation of the client returns.
pub type TwilioResult<T> = Result<T, TwilioErr>;

impl TwilioErr {
    /// The fixed text that opens the report of each kind of failure.
    pub open spec fn spec_label(&self) -> &'static str {
        match self {
            TwilioErr::Io(_) => "IO Error: ",
            TwilioErr::SerdeErr(_) => "Serde JSON Error: ",
            TwilioErr::UrlParse(_) => "URL parse error: ",
            TwilioErr::NetworkErr(_) => "There was a network error. ",
            TwilioErr::BorrowErr(_) => "Error trying to get client reference. ",
            TwilioErr::Utf8Err(_) => "Error converting to utf-8 string: ",
            TwilioErr::HttpErr(_) => "Http error when building req: ",
            TwilioErr::HeaderErr(_) => "Error creating header value: ",
        }
    }

    /// Whether `text` is what the owned failure renders itself as.
    ///
    /// The rendering is that of the failure's `Display`, as `to_string`
    /// gives it.
    pub open spec fn cause_renders_as(&self, text: String) -> bool {
        match self {
            TwilioErr::Io(e) => to_string_from_display_ensures::<std::io::Error>(e, text),
            TwilioErr::SerdeErr(e) => to_string_from_display_ensures::<serde_json::Error>(e, text),
            TwilioErr::UrlParse(e) => to_string_from_display_ensures::<http::uri::InvalidUri>(
                e,
                text,
            ),
            TwilioErr::NetworkErr(e) => to_string_from_display_ensures::<hyper::Error>(e, text),
            TwilioErr::BorrowErr(e) => to_string_from_display_ensures::<std::cell::BorrowMutError>(
                e,
                text,
            ),
            TwilioErr::Utf8Err(e) => to_string_from_display_ensures::<std::string::FromUtf8Error>(
                e,
                text,
            ),
            TwilioErr::HttpErr(e) => to_string_from_display_ensures::<http::Error>(e, text),
            TwilioErr::HeaderErr(e) => to_string_from_display_ensures::<typed_headers::Error>(
                e,
                text,
            ),
        }
    }

    /// Whether `line` is a report of this error: the label of its kind,
    /// followed by a rendering of the owned failure, and nothing else.
    pub open spec fn described_by(&self, line: Seq<char>) -> bool {
        exists|text: String| #[trigger]
            self.cause_renders_as(text) && line == self.label()@ + text@
    }

    /// What the owned failure gives as its own source.
    ///
    /// This is one step below the owned failure: the failure is never its
    /// own source.
    pub open spec fn source_of_cause(&self) -> Option<SourceRef<'static>> {
        match self {
            TwilioErr::Io(e) => io_error_source(*e),
            TwilioErr::SerdeErr(e) => serde_json_error_source(*e),
            TwilioErr::UrlParse(_) => None,
            TwilioErr::NetworkErr(e) => hyper_error_source(*e),
            TwilioErr::BorrowErr(e) => borrow_mut_error_source(*e),
            TwilioErr::Utf8Err(e) => from_utf8_error_source(*e),
            TwilioErr::HttpErr(_) => None,
            TwilioErr::HeaderErr(_) => None,
        }
    }

    /// The fixed text that opens the report of this kind of failure.
    #[verifier::when_used_as_spec(spec_label)]
    pub fn label(&self) -> (r: &'static str)
        ensures
            r == self.spec_label(),
    {
        match self {
            TwilioErr::Io(_) => "IO Error: ",
            TwilioErr::SerdeErr(_) => "Serde JSON Error: ",
            TwilioErr::UrlParse(_) => "URL parse error: ",
            TwilioErr::NetworkErr(_) => "There was a network error. ",
            TwilioErr::BorrowErr(_) => "Error trying to get client reference. ",
            TwilioErr::Utf8Err(_) => "Error converting to utf-8 string: ",
            TwilioErr::HttpErr(_) => "Http error when building req: ",
            TwilioErr::HeaderErr(_) => "Error creating header value: ",
        }
    }

    /// The owned failure's own message, as its `Display` renders it.
    ///
    /// This is `to_string` of the failure. It counts on the failure's
    /// `Display` to fail only when the formatter under it does, which std
    /// asks of every `Display` and which a `String` never does.
    pub fn cause_text(&self) -> (r: String)
        ensures
            self.cause_renders_as(r),
    {
        match self {
            TwilioErr::Io(e) => e.to_string(),
            TwilioErr::SerdeErr(e) => e.to_string(),
            TwilioErr::UrlParse(e) => e.to_string(),
            TwilioErr::NetworkErr(e) => e.to_string(),
            TwilioErr::BorrowErr(e) => e.to_string(),
            TwilioErr::Utf8Err(e) => e.to_string(),
            TwilioErr::HttpErr(e) => e.to_string(),
            TwilioErr::HeaderErr(e) => e.to_string(),
        }
    }

    /// The label of this kind of failure, followed by `cause_text` as it
    /// stands.
    pub fn labelled(&self, cause_text: &str) -> (r: String)
        ensures
            r@ == self.label()@ + cause_text@,
    {
        String::from_str(self.label()).concat(cause_text)
    }

    /// The report of this error in one string: the label of its kind, then
    /// the owned failure's own message.
    ///
    /// The report always opens with the label, so it is never empty and never
    /// the bare message.
    pub fn describe(&self) -> (r: String)
        ensures
            self.described_by(r@),
            self.label()@.is_prefix_of(r@),
            r@.len() > 0,
    {
        let text = self.cause_text();
        let r = self.labelled(text.as_str());
        proof {
            crate::labels::lemma_label_is_not_empty(*self);
            assert(r@.subrange(0, self.label()@.len() as int) =~= self.label()@);
        }
        r
    }

    /// The source of the owned failure, if it has one.
    ///
    /// The answer is the one that the owned failure gives for itself. The
    /// owned failure is not the answer: a failure that has no source of its
    /// own gives `None` here. To reach the owned failure, match on the
    /// variant.
    pub fn source(&self) -> (r: Option<SourceRef<'_>>)
        ensures
            r == self.source_of_cause(),
    {
        match self {
            TwilioErr::Io(e) => source_of_io_error(e),
            TwilioErr::SerdeErr(e) => source_of_serde_json_error(e),
            TwilioErr::UrlParse(e) => source_of_invalid_uri(e),
            TwilioErr::NetworkErr(e) => source_of_hyper_error(e),
            TwilioErr::BorrowErr(e) => source_of_borrow_mut_error(e),
            TwilioErr::Utf8Err(e) => source_of_from_utf8_error(e),
            TwilioErr::HttpErr(e) => source_of_http_error(e),
            TwilioErr::HeaderErr(e) => source_of_header_error(e),
        }
    }
}

} // verus!
