use vstd::prelude::*;
use vstd::utf8::*;
use vstd::string::*;
use crate::clipboard::{get_text, set_text, utf8_text};
use crate::error::{BridgeError, ClipboardFailure};

verus! {

broadcast use vstd::utf8::group_utf8_lib;

/// The text that write mode places on the clipboard for well-formed input.
pub open spec fn stored_text(input: Seq<u8>) -> Seq<char>
    recommends
        valid_utf8(input),
{
    decode_utf8(input)
}

/// The bytes that read mode prints for clipboard text `t`.
pub open spec fn printed_bytes(t: Seq<char>) -> Seq<u8> {
    encode_utf8(t)
}

/// Checks that `input` is well-formed UTF-8 and views it as text; malformed
/// input is a conversion error that carries the decoder's diagnostic.
pub fn validate_text(input: &[u8]) -> (r: Result<&str, BridgeError>)
    ensures
        valid_utf8(input@) ==> r is Ok && r->Ok_0@ == stored_text(input@),
        !valid_utf8(input@) ==> r is Err && r->Err_0 is ConversionError,
{
    match utf8_text(input) {
        Ok(text) => {
            proof {
                encode_utf8_decode_utf8(text@);
            }
            Ok(text)
        },
        Err(e) => Err(BridgeError::ConversionError(e.to_string())),
    }
}

/// Completes read mode once the clipboard has answered: its text becomes the
/// bytes to print, its refusal a clipboard error.
pub fn read_outcome(fetched: Result<String, ClipboardFailure>) -> (r: Result<Vec<u8>, BridgeError>)
    ensures
        match fetched {
            Ok(t) => r is Ok && r->Ok_0@ == printed_bytes(t@),
            Err(f) => r == Err::<Vec<u8>, BridgeError>(BridgeError::ClipboardError(f)),
        },
{
    match fetched {
        Ok(t) => Ok(t.as_str().as_bytes_vec()),
        Err(f) => Err(BridgeError::ClipboardError(f)),
    }
}

/// Completes write mode once the clipboard has answered: on success the
/// captured input is echoed unchanged, a refusal becomes a clipboard error.
pub fn write_outcome(input: Vec<u8>, stored: Result<(), ClipboardFailure>) -> (r: Result<Vec<u8>, BridgeError>)
    ensures
        match stored {
            Ok(()) => r == Ok::<Vec<u8>, BridgeError>(input),
            Err(f) => r == Err::<Vec<u8>, BridgeError>(BridgeError::ClipboardError(f)),
        },
{
    match stored {
        Ok(()) => Ok(input),
        Err(f) => Err(BridgeError::ClipboardError(f)),
    }
}

/// Read mode: fetches the clipboard's text and returns the bytes to print.
pub fn try_read(clip: &mut arboard::Clipboard) -> (r: Result<Vec<u8>, BridgeError>)
    ensures
        r is Ok ==> valid_utf8(r->Ok_0@),
        r is Err ==> r->Err_0 is ClipboardError,
{
    let fetched = get_text(clip);
    read_outcome(fetched)
}

/// Write mode: validates the captured input as text, places it on the
/// clipboard and returns the bytes to echo, which are the input itself.
/// Malformed input is refused before the clipboard is touched.
pub fn try_write(clip: &mut arboard::Clipboard, input: Vec<u8>) -> (r: Result<Vec<u8>, BridgeError>)
    ensures
        !valid_utf8(input@) ==> r is Err && r->Err_0 is ConversionError && *final(clip) == *old(clip),
        valid_utf8(input@) ==> r is Ok || r->Err_0 is ClipboardError,
        r is Ok ==> r->Ok_0@ == input@,
{
    let stored = match validate_text(input.as_slice()) {
        Ok(text) => set_text(clip, text),
        Err(e) => return Err(e),
    };
    write_outcome(input, stored)
}

/// Text that write mode accepts, handed back unchanged by the clipboard, is
/// printed by read mode exactly as the input bytes came in.
pub proof fn lemma_write_then_read(input: Seq<u8>)
    requires
        valid_utf8(input),
    ensures
        printed_bytes(stored_text(input)) == input,
{
}

} // verus!
