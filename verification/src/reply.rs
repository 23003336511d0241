//! From a finished run of the tool to the answer that the user is given.

use std::borrow::Cow;
use vstd::prelude::*;
use vstd::utf8::*;

verus! {

/// What a run of the tool left behind.
#[derive(Clone, Debug, PartialEq, Eq)]
pub struct ToolOutput {
    /// Whether the tool's exit status was a success.
    pub success: bool,
    /// Everything the tool wrote to its standard output.
    pub stdout: Vec<u8>,
    /// Everything the tool wrote to its standard error.
    pub stderr: Vec<u8>,
}

/// The text that `String::from_utf8_lossy` makes of the given bytes.
pub uninterp spec fn lossy_utf8(bytes: Seq<u8>) -> Seq<char>;

/// Trusted: what is assumed of `String::from_utf8_lossy`. Its result
/// depends on the bytes alone. Bytes that are valid UTF-8 come back as the
/// text they encode; of other bytes nothing more is claimed here (std
/// replaces each malformed part by U+FFFD).
pub assume_specification<'a>[ String::from_utf8_lossy ](bytes: &'a [u8]) -> (text: Cow<'a, str>)
    ensures
        text@ == lossy_utf8(bytes@),
        valid_utf8(bytes@) ==> text@ == decode_utf8(bytes@),
;

/// The text that is made of the bytes of one stream of tool output.
fn decode(bytes: &Vec<u8>) -> (text: String)
    ensures
        text@ == shown_text(bytes@),
{
    match String::from_utf8_lossy(bytes.as_slice()) {
        Cow::Borrowed(kept) => kept.to_owned(),
        Cow::Owned(mended) => mended,
    }
}

/// The text that the user is shown for the given bytes of tool output:
/// the text they encode where they are valid UTF-8, and else what lossy
/// decoding makes of them.
pub open spec fn shown_text(bytes: Seq<u8>) -> Seq<char> {
    if valid_utf8(bytes) {
        decode_utf8(bytes)
    } else {
        lossy_utf8(bytes)
    }
}

/// The answer to a request, given how the attempt to run the tool ended:
/// with its output, or with the message of a failure to start it.
///
/// A failure to start is an error with that message. A run whose exit
/// status is a success answers with its standard output; any other run is
/// an error with its standard error. This holds of every request alike.
pub open spec fn answer(outcome: Result<ToolOutput, String>) -> Result<Seq<char>, Seq<char>> {
    match outcome {
        Err(message) => Err(message@),
        Ok(output) => if output.success {
            Ok(shown_text(output.stdout@))
        } else {
            Err(shown_text(output.stderr@))
        },
    }
}

/// The characters of an answer.
pub open spec fn answer_text(reply: Result<String, String>) -> Result<Seq<char>, Seq<char>> {
    match reply {
        Ok(text) => Ok(text@),
        Err(text) => Err(text@),
    }
}

/// Text of tool output that is valid UTF-8 is shown unchanged: encoded
/// again, it is the same bytes.
pub proof fn lemma_valid_output_unchanged(bytes: Seq<u8>)
    requires
        valid_utf8(bytes),
    ensures
        encode_utf8(shown_text(bytes)) == bytes,
{
    decode_utf8_encode_utf8(bytes);
}

/// A run that ends with a failing exit status is an error with the text
/// of its standard error, whatever it wrote to its standard output.
pub proof fn lemma_failing_run_is_error(output: ToolOutput)
    requires
        !output.success,
    ensures
        answer(Ok(output)) == Err::<Seq<char>, Seq<char>>(shown_text(output.stderr@)),
{
}

/// The answer is an error exactly when the tool could not be started or
/// its exit status was not a success.
pub proof fn lemma_error_exactly_on_failure(outcome: Result<ToolOutput, String>)
    ensures
        answer(outcome) is Err <==> (outcome matches Ok(output) ==> !output.success),
{
}

/// Turns the end of an attempt to run the tool into the answer to the
/// request.
pub fn reply(outcome: Result<ToolOutput, String>) -> (reply: Result<String, String>)
    ensures
        answer_text(reply) == answer(outcome),
{
    match outcome {
        Err(message) => Err(message),
        Ok(output) => {
            if output.success {
                Ok(decode(&output.stdout))
            } else {
                Err(decode(&output.stderr))
            }
        },
    }
}

} // verus!
