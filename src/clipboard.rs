use vstd::prelude::*;
use vstd::utf8::*;
use vstd::string::*;
use crate::error::ClipboardFailure;

verus! {

/// The system clipboard handle of the arboard crate.
#[verifier::external_type_specification]
#[verifier::external_body]
pub struct ExClipboard(arboard::Clipboard);

/// The error that `core::str::from_utf8` reports on malformed input.
#[verifier::external_type_specification]
#[verifier::external_body]
pub struct ExUtf8Error(core::str::Utf8Error);

/// The error that arboard's clipboard operations report.
#[verifier::external_type_specification]
#[verifier::external_body]
pub struct ExArboardError(arboard::Error);

/// Turns an arboard error into the library's failure reason, variant for variant.
#[verifier::external_body]
fn failure_of(e: arboard::Error) -> ClipboardFailure {
    match e {
        arboard::Error::ClipboardOccupied => ClipboardFailure::ClipboardOccupied,
        arboard::Error::ContentNotAvailable => ClipboardFailure::ContentNotAvailable,
        arboard::Error::ConversionFailure => ClipboardFailure::ConversionFailure,
        arboard::Error::ClipboardNotSupported => ClipboardFailure::ClipboardNotSupported,
        arboard::Error::Unknown { description } => ClipboardFailure::Unknown { description },
        _ => ClipboardFailure::Other,
    }
}

/// Relies on arboard's `Clipboard::get_text`: the clipboard's current text,
/// or the reason it could not be had. What comes back depends on the host,
/// so nothing more is stated.
#[verifier::external_body]
pub(crate) fn get_text(clip: &mut arboard::Clipboard) -> (r: Result<String, ClipboardFailure>) {
    clip.get_text().map_err(failure_of)
}

/// Relies on arboard's `Clipboard::set_text`: places `text` on the
/// clipboard, or reports why it could not. The outcome depends on the host.
#[verifier::external_body]
pub(crate) fn set_text(clip: &mut arboard::Clipboard, text: &str) -> (r: Result<(), ClipboardFailure>) {
    clip.set_text(text).map_err(failure_of)
}

/// Relies on `core::str::from_utf8`: it succeeds exactly when the bytes are
/// well-formed UTF-8, and then views those same bytes as text.
#[verifier::external_body]
pub(crate) fn utf8_text(bytes: &[u8]) -> (r: Result<&str, core::str::Utf8Error>)
    ensures
        r is Ok <==> valid_utf8(bytes@),
        r is Ok ==> r->Ok_0.spec_bytes() == bytes@,
{
    core::str::from_utf8(bytes)
}

} // verus!
