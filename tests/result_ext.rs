use std::cell::Cell;

use failure::compat::Compat;
use failure::context::Context;
use failure::error::Error;
use failure::fail::{Describe, Fail};
use failure::result_ext::ResultExt;

fn parse_error() -> Error {
    Error::msg("invalid token at byte 4".to_string())
}

#[test]
fn success_passes_through_compat() {
    let r: Result<u32, Error> = Ok(5);
    assert_eq!(r.compat().ok(), Some(5));
}

#[test]
fn success_passes_through_context() {
    let r: Result<u32, Error> = Ok(5);
    assert_eq!(r.context("never shown").ok(), Some(5));
}

#[test]
fn success_never_calls_the_function() {
    let r: Result<u32, Error> = Ok(5);
    let out = r.with_context(|_e: &Error| -> String { panic!("called on success") });
    assert_eq!(out.ok(), Some(5));
}

#[test]
fn context_keeps_error_as_cause() {
    let r: Result<u32, Error> = Err(parse_error());
    let w = r.context("while parsing header".to_string()).err().unwrap();
    assert_eq!(w.describe(), "while parsing header");
    assert_eq!(w.get_context(), "while parsing header");
    assert_eq!(w.get_cause().describe(), "invalid token at byte 4");
    assert_eq!(w.causes(), vec!["invalid token at byte 4".to_string()]);
}

#[test]
fn with_context_calls_function_once_with_the_error() {
    let calls = Cell::new(0u32);
    let r: Result<u32, Error> = Err(parse_error());
    let w = r
        .with_context(|e: &Error| {
            calls.set(calls.get() + 1);
            format!("{} chars", e.describe().len())
        })
        .err()
        .unwrap();
    assert_eq!(calls.get(), 1);
    assert_eq!(w.context, "23 chars");
    assert_eq!(w.cause.describe(), "invalid token at byte 4");
}

#[test]
fn with_context_twice_builds_two_level_chain() {
    let r: Result<u32, Error> = Err(parse_error());
    let mid = r.with_context(|e: &Error| format!("reading field: {}", e.describe()));
    let out = mid.with_context(|w: &Context<String, Error>| format!("loading config ({} deep)", w.causes().len() + 1));
    let w = out.err().unwrap();
    assert_eq!(w.describe(), "loading config (2 deep)");
    assert_eq!(w.cause.describe(), "reading field: invalid token at byte 4");
    assert_eq!(w.cause.cause.describe(), "invalid token at byte 4");
    assert_eq!(
        w.causes(),
        vec![
            "reading field: invalid token at byte 4".to_string(),
            "invalid token at byte 4".to_string(),
        ]
    );
}

#[test]
fn compat_displays_as_the_wrapped_error() {
    let r: Result<u32, Error> = Err(parse_error());
    let c = r.compat().err().unwrap();
    assert_eq!(c.describe(), "invalid token at byte 4");
    assert!(c.causes().is_empty());
    assert_eq!(c.into_inner().describe(), "invalid token at byte 4");
}

#[test]
fn compat_walks_the_wrapped_causes() {
    let inner: Result<u32, Error> = Err(parse_error());
    let r = inner.context("while parsing header");
    let c: Compat<Context<&'static str, Error>> = r.compat().err().unwrap();
    assert_eq!(c.describe(), "while parsing header");
    assert_eq!(c.causes(), vec!["invalid token at byte 4".to_string()]);
    assert_eq!(c.get_ref().describe(), "while parsing header");
}

#[test]
fn attach_context_scenario() {
    let r: Result<u32, Error> = Err(parse_error());
    let w = r.context("while parsing header").err().unwrap();
    assert_eq!(w.describe(), "while parsing header");
    assert_eq!(w.cause.describe(), "invalid token at byte 4");
}

#[test]
fn with_context_scenario() {
    let r: Result<u32, Error> = Err(parse_error());
    let w = r
        .with_context(|err: &Error| format!("failed on {}", err.describe()))
        .err()
        .unwrap();
    assert_eq!(w.describe(), "failed on invalid token at byte 4");
    assert_eq!(w.cause.describe(), "invalid token at byte 4");
}

#[test]
fn error_from_fail_keeps_the_narrative() {
    let r: Result<u32, Error> = Err(parse_error());
    let w = r.context("while parsing header").err().unwrap();
    let e = Error::from_fail(w);
    assert_eq!(e.describe(), "while parsing header");
    assert_eq!(e.causes(), vec!["invalid token at byte 4".to_string()]);
    let again: Result<u32, Error> = Err(e);
    let outer = again.context("while starting up".to_string()).err().unwrap();
    assert_eq!(
        outer.causes(),
        vec!["while parsing header".to_string(), "invalid token at byte 4".to_string()]
    );
}

#[test]
fn error_message_has_no_causes() {
    let e = Error::msg(String::new());
    assert_eq!(e.describe(), "");
    assert!(e.causes().is_empty());
}

#[test]
fn wrapper_constructors_hold_their_parts() {
    let c = Context::new("step", parse_error());
    assert_eq!(*c.get_context(), "step");
    assert_eq!(c.get_cause().describe(), "invalid token at byte 4");
    let k = Compat::new(parse_error());
    assert_eq!(k.get_ref().describe(), "invalid token at byte 4");
}
