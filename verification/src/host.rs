//! The host's side of a call: string handles of the Java runtime.

use crate::machine::Event;
use jni::errors::Error;
use jni::objects::JString;
use jni::JNIEnv;
use vstd::prelude::*;

verus! {

/// `jni::JNIEnv`, the host's interface for the calling thread.
#[verifier::external_type_specification]
#[verifier::external_body]
pub struct ExJNIEnv<'local>(JNIEnv<'local>);

/// `jni::objects::JString`, a reference to a string that the host owns.
#[verifier::external_type_specification]
#[verifier::external_body]
pub struct ExJString<'local>(JString<'local>);

/// `jni::errors::Error`, the reason why a call into the host failed.
#[verifier::external_type_specification]
#[verifier::external_body]
pub struct ExError(Error);

/// Copies the host's string behind `handle` into a string of our own, with
/// `JNIEnv::get_string` and the conversion of its `JavaStr` into a `String`.
///
/// Nothing is claimed of the result: the host decides what the handle refers
/// to, and whether it can be read at all.
#[verifier::external_body]
fn read_string(env: &mut JNIEnv, handle: &JString) -> (text: Result<String, Error>) {
    match env.get_string(handle) {
        Ok(text) => Ok(text.into()),
        Err(error) => Err(error),
    }
}

/// The text that a read of a handle gave: none where the host refused it,
/// whatever its reason.
pub open spec fn text_of(read: Result<String, Error>) -> Option<Seq<char>> {
    match read {
        Ok(text) => Some(text@),
        Err(_) => None,
    }
}

/// Keeps the text that a read of a handle gave and drops the host's reason
/// where it gave none: every such reason is the same failure to the call.
pub fn decoded_text(read: Result<String, Error>) -> (text: Option<String>)
    ensures
        text.deep_view() == text_of(read),
{
    match read {
        Ok(text) => Some(text),
        Err(_) => None,
    }
}

/// Decodes the source and the destination path, the first action of a call.
///
/// The destination is read only where the source could be read. The cache
/// directory is accepted and not consulted. No handle is kept: what the
/// report holds are copies.
pub fn decode(
    env: &mut JNIEnv,
    latex_src: &JString,
    output_path: &JString,
    _cache_dir: &JString,
) -> (event: Event)
    ensures
        event@ is Decoded,
        event@->latex is None ==> event@->destination is None,
{
    let latex = decoded_text(read_string(env, latex_src));
    let destination = match latex {
        Some(_) => decoded_text(read_string(env, output_path)),
        None => None,
    };
    Event::Decoded { latex, destination }
}

} // verus!
