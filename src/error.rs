use vstd::prelude::*;
use vstd::string::*;

verus! {

/// Why the clipboard refused a read or a write.
#[derive(Debug, PartialEq, Eq)]
pub enum ClipboardFailure {
    /// Another party holds the native clipboard.
    ClipboardOccupied,
    /// The clipboard is empty or holds no text.
    ContentNotAvailable,
    /// The clipboard's content could not be converted to text.
    ConversionFailure,
    /// This host offers no usable clipboard.
    ClipboardNotSupported,
    /// A failure the clipboard library could not classify, with its description.
    Unknown { description: String },
    /// A failure reason this library does not know of.
    Other,
}

/// A failure of one clipboard operation.
#[derive(Debug, PartialEq, Eq)]
pub enum BridgeError {
    /// The clipboard refused the operation.
    ClipboardError(ClipboardFailure),
    /// The input bytes are not well-formed UTF-8; holds the decoder's diagnostic.
    ConversionError(String),
    /// Reading the input or writing the output failed; holds the system's diagnostic.
    IoError(String),
}

/// The fixed phrase that names the kind of an error, with no detail.
pub open spec fn kind_phrase(e: BridgeError) -> Seq<char> {
    match e {
        BridgeError::ClipboardError(_) => "clipboard error"@,
        BridgeError::ConversionError(_) => "utf8 conversion error"@,
        BridgeError::IoError(_) => "io error"@,
    }
}

/// The phrase that names a clipboard failure in detail.
pub open spec fn failure_phrase(f: ClipboardFailure) -> Seq<char> {
    match f {
        ClipboardFailure::ClipboardOccupied => "clipboard not available"@,
        ClipboardFailure::ContentNotAvailable => "content not available"@,
        ClipboardFailure::ConversionFailure => "could not convert clipboard content"@,
        ClipboardFailure::ClipboardNotSupported => "clipboard not supported"@,
        ClipboardFailure::Unknown { .. } => "unknown clipboard error"@,
        ClipboardFailure::Other => "unknown clipboard error"@,
    }
}

/// The diagnostic line for `e`: a fixed phrase per kind unless `verbose`;
/// with `verbose`, the specific clipboard phrase, or the underlying text for
/// an unclassified clipboard failure, a conversion failure or an I/O failure.
pub open spec fn report_line(e: BridgeError, verbose: bool) -> Seq<char> {
    if !verbose {
        "error: "@ + kind_phrase(e)
    } else {
        match e {
            BridgeError::ClipboardError(ClipboardFailure::Unknown { description }) =>
                "clipboard error: "@ + description@,
            BridgeError::ClipboardError(f) => "error: "@ + failure_phrase(f),
            BridgeError::IoError(d) => "io error: "@ + d@,
            BridgeError::ConversionError(d) => "utf8 error: "@ + d@,
        }
    }
}

/// True when the two errors are of the same kind.
pub open spec fn same_kind(a: BridgeError, b: BridgeError) -> bool {
    match (a, b) {
        (BridgeError::ClipboardError(_), BridgeError::ClipboardError(_)) => true,
        (BridgeError::ConversionError(_), BridgeError::ConversionError(_)) => true,
        (BridgeError::IoError(_), BridgeError::IoError(_)) => true,
        _ => false,
    }
}

impl ClipboardFailure {
    /// The detailed phrase for this failure.
    pub fn phrase(&self) -> (r: &'static str)
        ensures
            r@ == failure_phrase(*self),
    {
        match self {
            ClipboardFailure::ClipboardOccupied => "clipboard not available",
            ClipboardFailure::ContentNotAvailable => "content not available",
            ClipboardFailure::ConversionFailure => "could not convert clipboard content",
            ClipboardFailure::ClipboardNotSupported => "clipboard not supported",
            ClipboardFailure::Unknown { .. } => "unknown clipboard error",
            ClipboardFailure::Other => "unknown clipboard error",
        }
    }
}

impl BridgeError {
    /// The fixed phrase for this error's kind.
    pub fn kind_phrase(&self) -> (r: &'static str)
        ensures
            r@ == kind_phrase(*self),
    {
        match self {
            BridgeError::ClipboardError(_) => "clipboard error",
            BridgeError::ConversionError(_) => "utf8 conversion error",
            BridgeError::IoError(_) => "io error",
        }
    }

    /// The one line that reports this error, without a line break.
    pub fn report(&self, verbose: bool) -> (r: String)
        ensures
            r@ == report_line(*self, verbose),
    {
        if !verbose {
            return String::from_str("error: ").concat(self.kind_phrase());
        }
        match self {
            BridgeError::ClipboardError(ClipboardFailure::Unknown { description }) =>
                String::from_str("clipboard error: ").concat(description.as_str()),
            BridgeError::ClipboardError(f) => String::from_str("error: ").concat(f.phrase()),
            BridgeError::IoError(d) => String::from_str("io error: ").concat(d.as_str()),
            BridgeError::ConversionError(d) => String::from_str("utf8 error: ").concat(d.as_str()),
        }
    }
}

/// Without `verbose` the report depends on the error's kind alone, so no
/// underlying diagnostic text ever reaches it.
pub proof fn lemma_quiet_report_hides_detail(a: BridgeError, b: BridgeError)
    requires
        same_kind(a, b),
    ensures
        report_line(a, false) == report_line(b, false),
{
}

/// With `verbose` the report of an I/O or conversion failure ends with the
/// underlying diagnostic text, unchanged.
pub proof fn lemma_verbose_report_shows_detail(e: BridgeError)
    requires
        e is IoError || e is ConversionError,
    ensures
        ({
            let d = match e {
                BridgeError::IoError(d) => d@,
                BridgeError::ConversionError(d) => d@,
                _ => Seq::empty(),
            };
            let line = report_line(e, true);
            line.len() >= d.len() && line.subrange(line.len() - d.len(), line.len() as int) == d
        }),
{
    match e {
        BridgeError::IoError(d) => {
            let line = report_line(e, true);
            assert(line.subrange(line.len() - d@.len(), line.len() as int) =~= d@);
        },
        BridgeError::ConversionError(d) => {
            let line = report_line(e, true);
            assert(line.subrange(line.len() - d@.len(), line.len() as int) =~= d@);
        },
        _ => {},
    }
}

} // verus!
