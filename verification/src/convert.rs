//! How an error is made: from the failure itself, by `From`, and in no other
//! way. Each kind of failure has its own variant and is kept whole, so `?`
//! carries a lower-level `Result` up to a [`crate::TwilioResult`].

use crate::causes::{
    borrow_mut_error_source, from_utf8_error_source, hyper_error_source, io_error_source,
    serde_json_error_source,
};
use crate::error::TwilioErr;
use vstd::prelude::*;
use vstd::std_specs::convert::FromSpec;
use vstd::string::*;

verus! {

impl From<std::io::Error> for TwilioErr {
    fn from(e: std::io::Error) -> (r: TwilioErr)
        ensures
            r == TwilioErr::Io(e),
    {
        TwilioErr::Io(e)
    }
}

impl vstd::std_specs::convert::FromSpecImpl<std::io::Error> for TwilioErr {
    open spec fn obeys_from_spec() -> bool {
        true
    }

    open spec fn from_spec(e: std::io::Error) -> TwilioErr {
        TwilioErr::Io(e)
    }
}

impl From<http::uri::InvalidUri> for TwilioErr {
    fn from(e: http::uri::InvalidUri) -> (r: TwilioErr)
        ensures
            r == TwilioErr::UrlParse(e),
    {
        TwilioErr::UrlParse(e)
    }
}

impl vstd::std_specs::convert::FromSpecImpl<http::uri::InvalidUri> for TwilioErr {
    open spec fn obeys_from_spec() -> bool {
        true
    }

    open spec fn from_spec(e: http::uri::InvalidUri) -> TwilioErr {
        TwilioErr::UrlParse(e)
    }
}

impl From<hyper::Error> for TwilioErr {
    fn from(e: hyper::Error) -> (r: TwilioErr)
        ensures
            r == TwilioErr::NetworkErr(e),
    {
        TwilioErr::NetworkErr(e)
    }
}

impl vstd::std_specs::convert::FromSpecImpl<hyper::Error> for TwilioErr {
    open spec fn obeys_from_spec() -> bool {
        true
    }

    open spec fn from_spec(e: hyper::Error) -> TwilioErr {
        TwilioErr::NetworkErr(e)
    }
}

impl From<serde_json::Error> for TwilioErr {
    fn from(e: serde_json::Error) -> (r: TwilioErr)
        ensures
            r == TwilioErr::SerdeErr(e),
    {
        TwilioErr::SerdeErr(e)
    }
}

impl vstd::std_specs::convert::FromSpecImpl<serde_json::Error> for TwilioErr {
    open spec fn obeys_from_spec() -> bool {
        true
    }

    open spec fn from_spec(e: serde_json::Error) -> TwilioErr {
        TwilioErr::SerdeErr(e)
    }
}

impl From<std::cell::BorrowMutError> for TwilioErr {
    fn from(e: std::cell::BorrowMutError) -> (r: TwilioErr)
        ensures
            r == TwilioErr::BorrowErr(e),
    {
        TwilioErr::BorrowErr(e)
    }
}

impl vstd::std_specs::convert::FromSpecImpl<std::cell::BorrowMutError> for TwilioErr {
    open spec fn obeys_from_spec() -> bool {
        true
    }

    open spec fn from_spec(e: std::cell::BorrowMutError) -> TwilioErr {
        TwilioErr::BorrowErr(e)
    }
}

impl From<std::string::FromUtf8Error> for TwilioErr {
    fn from(e: std::string::FromUtf8Error) -> (r: TwilioErr)
        ensures
            r == TwilioErr::Utf8Err(e),
    {
        TwilioErr::Utf8Err(e)
    }
}

impl vstd::std_specs::convert::FromSpecImpl<std::string::FromUtf8Error> for TwilioErr {
    open spec fn obeys_from_spec() -> bool {
        true
    }

    open spec fn from_spec(e: std::string::FromUtf8Error) -> TwilioErr {
        TwilioErr::Utf8Err(e)
    }
}

impl From<http::Error> for TwilioErr {
    fn from(e: http::Error) -> (r: TwilioErr)
        ensures
            r == TwilioErr::HttpErr(e),
    {
        TwilioErr::HttpErr(e)
    }
}

impl vstd::std_specs::convert::FromSpecImpl<http::Error> for TwilioErr {
    open spec fn obeys_from_spec() -> bool {
        true
    }

    open spec fn from_spec(e: http::Error) -> TwilioErr {
        TwilioErr::HttpErr(e)
    }
}

impl From<typed_headers::Error> for TwilioErr {
    fn from(e: typed_headers::Error) -> (r: TwilioErr)
        ensures
            r == TwilioErr::HeaderErr(e),
    {
        TwilioErr::HeaderErr(e)
    }
}

impl vstd::std_specs::convert::FromSpecImpl<typed_headers::Error> for TwilioErr {
    open spec fn obeys_from_spec() -> bool {
        true
    }

    open spec fn from_spec(e: typed_headers::Error) -> TwilioErr {
        TwilioErr::HeaderErr(e)
    }
}

/// Conversion keeps the failure whole: a failure of each of the eight kinds
/// becomes the one variant of its kind, and the failure found in that variant
/// is the one that went in.
pub proof fn lemma_conversion_keeps_the_cause(
    io: std::io::Error,
    uri: http::uri::InvalidUri,
    net: hyper::Error,
    json: serde_json::Error,
    borrow: std::cell::BorrowMutError,
    utf8: std::string::FromUtf8Error,
    req: http::Error,
    header: typed_headers::Error,
)
    ensures
        TwilioErr::from_spec(io) is Io,
        TwilioErr::from_spec(io)->Io_0 == io,
        TwilioErr::from_spec(uri) is UrlParse,
        TwilioErr::from_spec(uri)->UrlParse_0 == uri,
        TwilioErr::from_spec(net) is NetworkErr,
        TwilioErr::from_spec(net)->NetworkErr_0 == net,
        TwilioErr::from_spec(json) is SerdeErr,
        TwilioErr::from_spec(json)->SerdeErr_0 == json,
        TwilioErr::from_spec(borrow) is BorrowErr,
        TwilioErr::from_spec(borrow)->BorrowErr_0 == borrow,
        TwilioErr::from_spec(utf8) is Utf8Err,
        TwilioErr::from_spec(utf8)->Utf8Err_0 == utf8,
        TwilioErr::from_spec(req) is HttpErr,
        TwilioErr::from_spec(req)->HttpErr_0 == req,
        TwilioErr::from_spec(header) is HeaderErr,
        TwilioErr::from_spec(header)->HeaderErr_0 == header,
{
}

/// The report of a converted failure: its label is the one of the failure's
/// kind, and the label followed by any text that the failure renders itself
/// as is a report of the converted failure.
pub proof fn lemma_converted_cause_is_described(
    io: std::io::Error,
    uri: http::uri::InvalidUri,
    net: hyper::Error,
    json: serde_json::Error,
    borrow: std::cell::BorrowMutError,
    utf8: std::string::FromUtf8Error,
    req: http::Error,
    header: typed_headers::Error,
    text: String,
)
    ensures
        TwilioErr::from_spec(io).label()@ == "IO Error: "@,
        to_string_from_display_ensures::<std::io::Error>(&io, text) ==> TwilioErr::from_spec(
            io,
        ).described_by("IO Error: "@ + text@),
        TwilioErr::from_spec(json).label()@ == "Serde JSON Error: "@,
        to_string_from_display_ensures::<serde_json::Error>(&json, text) ==> TwilioErr::from_spec(
            json,
        ).described_by("Serde JSON Error: "@ + text@),
        TwilioErr::from_spec(uri).label()@ == "URL parse error: "@,
        to_string_from_display_ensures::<http::uri::InvalidUri>(&uri, text)
            ==> TwilioErr::from_spec(uri).described_by("URL parse error: "@ + text@),
        TwilioErr::from_spec(net).label()@ == "There was a network error. "@,
        to_string_from_display_ensures::<hyper::Error>(&net, text) ==> TwilioErr::from_spec(
            net,
        ).described_by("There was a network error. "@ + text@),
        TwilioErr::from_spec(borrow).label()@ == "Error trying to get client reference. "@,
        to_string_from_display_ensures::<std::cell::BorrowMutError>(&borrow, text)
            ==> TwilioErr::from_spec(borrow).described_by(
            "Error trying to get client reference. "@ + text@,
        ),
        TwilioErr::from_spec(utf8).label()@ == "Error converting to utf-8 string: "@,
        to_string_from_display_ensures::<std::string::FromUtf8Error>(&utf8, text)
            ==> TwilioErr::from_spec(utf8).described_by(
            "Error converting to utf-8 string: "@ + text@,
        ),
        TwilioErr::from_spec(req).label()@ == "Http error when building req: "@,
        to_string_from_display_ensures::<http::Error>(&req, text) ==> TwilioErr::from_spec(
            req,
        ).described_by("Http error when building req: "@ + text@),
        TwilioErr::from_spec(header).label()@ == "Error creating header value: "@,
        to_string_from_display_ensures::<typed_headers::Error>(&header, text)
            ==> TwilioErr::from_spec(header).described_by(
            "Error creating header value: "@ + text@,
        ),
{
    assert(TwilioErr::from_spec(io).cause_renders_as(text)
        == to_string_from_display_ensures::<std::io::Error>(&io, text));
    assert(TwilioErr::from_spec(json).cause_renders_as(text)
        == to_string_from_display_ensures::<serde_json::Error>(&json, text));
    assert(TwilioErr::from_spec(uri).cause_renders_as(text)
        == to_string_from_display_ensures::<http::uri::InvalidUri>(&uri, text));
    assert(TwilioErr::from_spec(net).cause_renders_as(text)
        == to_string_from_display_ensures::<hyper::Error>(&net, text));
    assert(TwilioErr::from_spec(borrow).cause_renders_as(text)
        == to_string_from_display_ensures::<std::cell::BorrowMutError>(&borrow, text));
    assert(TwilioErr::from_spec(utf8).cause_renders_as(text)
        == to_string_from_display_ensures::<std::string::FromUtf8Error>(&utf8, text));
    assert(TwilioErr::from_spec(req).cause_renders_as(text)
        == to_string_from_display_ensures::<http::Error>(&req, text));
    assert(TwilioErr::from_spec(header).cause_renders_as(text)
        == to_string_from_display_ensures::<typed_headers::Error>(&header, text));
}

/// The source of a converted failure is the failure's own source: what each
/// kind of failure answers when asked, and never the failure itself.
pub proof fn lemma_converted_cause_gives_its_source(
    io: std::io::Error,
    uri: http::uri::InvalidUri,
    net: hyper::Error,
    json: serde_json::Error,
    borrow: std::cell::BorrowMutError,
    utf8: std::string::FromUtf8Error,
    req: http::Error,
    header: typed_headers::Error,
)
    ensures
        TwilioErr::from_spec(io).source_of_cause() == io_error_source(io),
        TwilioErr::from_spec(uri).source_of_cause() is None,
        TwilioErr::from_spec(net).source_of_cause() == hyper_error_source(net),
        TwilioErr::from_spec(json).source_of_cause() == serde_json_error_source(json),
        TwilioErr::from_spec(borrow).source_of_cause() == borrow_mut_error_source(borrow),
        TwilioErr::from_spec(utf8).source_of_cause() == from_utf8_error_source(utf8),
        TwilioErr::from_spec(req).source_of_cause() is None,
        TwilioErr::from_spec(header).source_of_cause() is None,
{
}

} // verus!
