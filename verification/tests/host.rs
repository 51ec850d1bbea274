use jni::objects::{JObject, JString};
use jni::{InitArgsBuilder, JNIVersion, JavaVM};
use jni::errors::{Error, JniError};
use latex_bridge::host::{decode, decoded_text};
use latex_bridge::machine::{Event, State};
use latex_bridge::outcome::{signal, Failure, Outcome, SIGNAL_FAILURE, SIGNAL_SUCCESS};
use std::sync::OnceLock;

const HELLO: &str = "\\documentclass{article}\\begin{document}Hello\\end{document}";

static HOST: OnceLock<JavaVM> = OnceLock::new();

/// The one Java runtime of this process.
fn host() -> &'static JavaVM {
    HOST.get_or_init(|| {
        let args = InitArgsBuilder::new().version(JNIVersion::V8).build().unwrap();
        JavaVM::new(args).unwrap()
    })
}

fn null_string() -> JString<'static> {
    JString::from(JObject::null())
}

#[test]
fn strings_of_the_host_are_decoded() {
    let mut env = host().attach_current_thread().unwrap();
    let latex = env.new_string(HELLO).unwrap();
    let destination = env.new_string("/tmp/out.pdf").unwrap();
    let cache = env.new_string("/tmp/cache").unwrap();

    let event = decode(&mut env, &latex, &destination, &cache);
    assert_eq!(
        event,
        Event::Decoded {
            latex: Some(HELLO.to_string()),
            destination: Some("/tmp/out.pdf".to_string()),
        }
    );
    assert_eq!(
        State::new().step(event),
        State::Compiling { latex: HELLO.to_string(), destination: "/tmp/out.pdf".to_string() }
    );
}

#[test]
fn source_and_destination_are_not_mixed_up() {
    let mut env = host().attach_current_thread().unwrap();
    let latex = env.new_string("source").unwrap();
    let destination = env.new_string("destination").unwrap();
    let cache = env.new_string("cache").unwrap();

    match decode(&mut env, &latex, &destination, &cache) {
        Event::Decoded { latex, destination } => {
            assert_eq!(latex.as_deref(), Some("source"));
            assert_eq!(destination.as_deref(), Some("destination"));
        }
        other => panic!("not a report of decoding: {:?}", other),
    }
}

#[test]
fn text_beyond_ascii_is_decoded() {
    let text = "\u{e9}t\u{e9} \u{4e2d}\u{6587} \u{1d11e} a\0b";
    let mut env = host().attach_current_thread().unwrap();
    let latex = env.new_string(text).unwrap();
    let destination = env.new_string("/tmp/d\u{e9}p\u{f4}t/out.pdf").unwrap();
    let cache = env.new_string("").unwrap();

    assert_eq!(
        decode(&mut env, &latex, &destination, &cache),
        Event::Decoded {
            latex: Some(text.to_string()),
            destination: Some("/tmp/d\u{e9}p\u{f4}t/out.pdf".to_string()),
        }
    );
}

#[test]
fn empty_strings_are_decoded() {
    let mut env = host().attach_current_thread().unwrap();
    let latex = env.new_string("").unwrap();
    let destination = env.new_string("").unwrap();
    let cache = env.new_string("").unwrap();

    assert_eq!(
        decode(&mut env, &latex, &destination, &cache),
        Event::Decoded { latex: Some(String::new()), destination: Some(String::new()) }
    );
}

#[test]
fn large_source_is_decoded() {
    let text = "\\section{x} ".repeat(100_000);
    let mut env = host().attach_current_thread().unwrap();
    let latex = env.new_string(&text).unwrap();
    let destination = env.new_string("/tmp/large.pdf").unwrap();
    let cache = env.new_string("").unwrap();

    match decode(&mut env, &latex, &destination, &cache) {
        Event::Decoded { latex: Some(latex), destination: Some(_) } => assert_eq!(latex, text),
        other => panic!("not decoded: {:?}", other),
    }
}

#[test]
fn null_source_fails_the_call() {
    let mut env = host().attach_current_thread().unwrap();
    let latex = null_string();
    let destination = env.new_string("/tmp/out.pdf").unwrap();
    let cache = env.new_string("/tmp/cache").unwrap();

    let event = decode(&mut env, &latex, &destination, &cache);
    assert_eq!(event, Event::Decoded { latex: None, destination: None });
    let state = State::new().step(event);
    assert_eq!(state, State::Done(Outcome::Failed(Failure::Decoding)));
    assert_eq!(signal(state.outcome().unwrap()), 0);
}

#[test]
fn null_destination_fails_the_call() {
    let mut env = host().attach_current_thread().unwrap();
    let latex = env.new_string(HELLO).unwrap();
    let destination = null_string();
    let cache = env.new_string("/tmp/cache").unwrap();

    let event = decode(&mut env, &latex, &destination, &cache);
    assert_eq!(event, Event::Decoded { latex: Some(HELLO.to_string()), destination: None });
    assert_eq!(State::new().step(event), State::Done(Outcome::Failed(Failure::Decoding)));
}

#[test]
fn null_cache_directory_is_ignored() {
    let mut env = host().attach_current_thread().unwrap();
    let latex = env.new_string(HELLO).unwrap();
    let destination = env.new_string("/tmp/out.pdf").unwrap();
    let cache = null_string();

    assert_eq!(
        decode(&mut env, &latex, &destination, &cache),
        Event::Decoded {
            latex: Some(HELLO.to_string()),
            destination: Some("/tmp/out.pdf".to_string()),
        }
    );
}

#[test]
fn a_handle_that_is_no_string_fails_the_call() {
    let mut env = host().attach_current_thread().unwrap();
    let thread = env.find_class("java/lang/Thread").unwrap();
    let object = env.new_object(thread, "()V", &[]).unwrap();
    let latex = JString::from(object);
    let destination = env.new_string("/tmp/out.pdf").unwrap();
    let cache = env.new_string("").unwrap();

    let event = decode(&mut env, &latex, &destination, &cache);
    assert_eq!(event, Event::Decoded { latex: None, destination: None });
}

#[test]
fn the_signal_is_the_boolean_of_the_host() {
    assert_eq!(SIGNAL_SUCCESS, jni::sys::JNI_TRUE);
    assert_eq!(SIGNAL_FAILURE, jni::sys::JNI_FALSE);
    let byte: jni::sys::jboolean = signal(Outcome::Succeeded);
    assert_eq!(byte, jni::sys::JNI_TRUE);
}

#[test]
fn text_that_was_read_is_kept_as_it_came() {
    assert_eq!(decoded_text(Ok(HELLO.to_string())), Some(HELLO.to_string()));
    assert_eq!(decoded_text(Ok(String::new())), Some(String::new()));
    let text = "\u{e9}t\u{e9} \u{1d11e} a\0b";
    assert_eq!(decoded_text(Ok(text.to_string())), Some(text.to_string()));
}

#[test]
fn every_reason_of_the_host_gives_no_text() {
    assert_eq!(decoded_text(Err(Error::NullPtr("get_string obj argument"))), None);
    assert_eq!(decoded_text(Err(Error::JavaException)), None);
    assert_eq!(decoded_text(Err(Error::JniCall(JniError::InvalidArguments))), None);
    assert_eq!(decoded_text(Err(Error::JniCall(JniError::NoMemory))), None);
}
