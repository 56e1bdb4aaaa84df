//! Conversion from each kind of failure: the variant it lands in, and that
//! the failure comes out as it went in.

use std::cell::RefCell;
use std::future::Future;
use std::sync::Arc;
use std::task::{Context, Poll, Wake, Waker};
use twilio_error::{TwilioErr, TwilioResult};

struct Idle;

impl Wake for Idle {
    fn wake(self: Arc<Self>) {}
}

fn no_upgrade() -> hyper::Error {
    let waker = Waker::from(Arc::new(Idle));
    let mut cx = Context::from_waker(&waker);
    let mut pending = Box::pin(hyper::upgrade::on(http::Request::new(())));
    match pending.as_mut().poll(&mut cx) {
        Poll::Ready(Err(e)) => e,
        _ => panic!("an upgrade that was never asked for cannot succeed"),
    }
}

#[test]
fn from_io_error_keeps_the_error() {
    let e = TwilioErr::from(std::io::Error::from_raw_os_error(13));
    match e {
        TwilioErr::Io(inner) => {
            assert_eq!(inner.raw_os_error(), Some(13));
            assert_eq!(inner.kind(), std::io::ErrorKind::PermissionDenied);
        }
        other => panic!("wrong variant: {:?}", other),
    }
}

#[test]
fn from_io_error_keeps_the_payload_in_place() {
    let cause = std::io::Error::new(std::io::ErrorKind::InvalidData, String::from("payload"));
    let before = format!("{:p}", cause.get_ref().unwrap());
    let e = TwilioErr::from(cause);
    match e {
        TwilioErr::Io(inner) => {
            let after = format!("{:p}", inner.get_ref().unwrap());
            assert_eq!(before, after);
            assert_eq!(inner.kind(), std::io::ErrorKind::InvalidData);
            assert_eq!(inner.to_string(), "payload");
        }
        other => panic!("wrong variant: {:?}", other),
    }
}

#[test]
fn from_invalid_uri() {
    let cause = "".parse::<http::Uri>().unwrap_err();
    let e: TwilioErr = cause.into();
    match e {
        TwilioErr::UrlParse(inner) => assert_eq!(inner.to_string(), "empty string"),
        other => panic!("wrong variant: {:?}", other),
    }
}

#[test]
fn from_hyper_error() {
    let e: TwilioErr = no_upgrade().into();
    match e {
        TwilioErr::NetworkErr(inner) => {
            assert!(inner.is_user());
            assert!(!inner.is_parse());
            assert_eq!(inner.to_string(), "no upgrade available");
        }
        other => panic!("wrong variant: {:?}", other),
    }
}

#[test]
fn from_serde_json_error() {
    let cause = serde_json::from_str::<serde_json::Value>("[1,\n 2,\n x]").unwrap_err();
    let e: TwilioErr = cause.into();
    match e {
        TwilioErr::SerdeErr(inner) => {
            assert_eq!(inner.line(), 3);
            assert_eq!(inner.column(), 2);
            assert!(inner.is_syntax());
        }
        other => panic!("wrong variant: {:?}", other),
    }
}

#[test]
fn from_borrow_mut_error() {
    let cell = RefCell::new(String::from("client"));
    let held = cell.borrow_mut();
    let e: TwilioErr = cell.try_borrow_mut().unwrap_err().into();
    drop(held);
    assert!(matches!(e, TwilioErr::BorrowErr(_)));
}

#[test]
fn from_utf8_error_keeps_the_bytes() {
    let cause = String::from_utf8(vec![0x68, 0x69, 0xc3, 0x28]).unwrap_err();
    let e: TwilioErr = cause.into();
    match e {
        TwilioErr::Utf8Err(inner) => {
            assert_eq!(inner.utf8_error().valid_up_to(), 2);
            assert_eq!(inner.into_bytes(), vec![0x68, 0x69, 0xc3, 0x28]);
        }
        other => panic!("wrong variant: {:?}", other),
    }
}

#[test]
fn from_http_error() {
    let cause = http::Request::builder()
        .header("bad name", "v")
        .body(())
        .unwrap_err();
    let e: TwilioErr = cause.into();
    match e {
        TwilioErr::HttpErr(inner) => {
            assert!(inner.is::<http::header::InvalidHeaderName>());
            assert!(!inner.is::<http::method::InvalidMethod>());
        }
        other => panic!("wrong variant: {:?}", other),
    }
}

#[test]
fn from_header_error() {
    let e: TwilioErr = typed_headers::Error::too_few_values().into();
    match e {
        TwilioErr::HeaderErr(inner) => assert_eq!(inner.to_string(), "too few header values"),
        other => panic!("wrong variant: {:?}", other),
    }
}

fn parse_port(text: &str) -> TwilioResult<u16> {
    let uri = text.parse::<http::Uri>()?;
    Ok(uri.port_u16().unwrap_or(80))
}

fn decode(bytes: Vec<u8>) -> TwilioResult<String> {
    let text = String::from_utf8(bytes)?;
    Ok(text)
}

fn count_items(json: &str) -> TwilioResult<usize> {
    let items: Vec<serde_json::Value> = serde_json::from_str(json)?;
    Ok(items.len())
}

#[test]
fn question_mark_carries_the_cause_up() {
    assert_eq!(parse_port("http://example.com:8080/x").unwrap(), 8080);
    assert_eq!(parse_port("http://example.com/").unwrap(), 80);
    assert!(matches!(parse_port(""), Err(TwilioErr::UrlParse(_))));

    assert_eq!(decode(vec![0x6f, 0x6b]).unwrap(), "ok");
    assert!(matches!(decode(vec![0xff]), Err(TwilioErr::Utf8Err(_))));

    assert_eq!(count_items("[1, 2, 3]").unwrap(), 3);
    let e = count_items("[1, 2").unwrap_err();
    assert!(matches!(e, TwilioErr::SerdeErr(_)));
    assert!(e.describe().starts_with("Serde JSON Error: EOF while parsing a list"));
}
