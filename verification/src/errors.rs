//! Error taxonomy of the card pipeline.
//!
//! Every stage surfaces its failure as one variant; the directory walker
//! treats them all alike (log, then stop), so no variant carries more
//! than a human-readable message where the underlying library gave one.

use vstd::prelude::*;
use vstd::string::StringExecFns;

verus! {

/// A failure of one stage of the card pipeline.
#[derive(Debug)]
pub enum CardError {
    /// The source file could not be decoded as a raster image.
    Decode(String),
    /// Re-encoding the decoded image as PNG failed.
    Encode(String),
    /// No filename stem could be extracted from the input file name.
    Naming,
    /// The composed SVG document is not well-formed for the supported subset.
    Parse(String),
    /// The fixed-size pixel canvas could not be allocated.
    Canvas,
    /// The rendered canvas could not be encoded as a PNG byte stream.
    Write(String),
}

impl CardError {
    /// A human-readable description of the failure, for the error
    /// stream: a fixed text per variant, with the underlying library's
    /// words appended where a variant carries them.
    pub fn message(&self) -> (r: String)
        ensures
            self matches CardError::Decode(m) ==> r@ == "could not decode image: "@ + m@,
            self matches CardError::Encode(m) ==> r@ == "could not re-encode image as PNG: "@
                + m@,
            self is Naming ==> r@ == "Could not find code, file needs to be named <CODE>.png"@,
            self matches CardError::Parse(m) ==> r@ == "could not parse composed SVG: "@ + m@,
            self is Canvas ==> r@ == "Could not create pixmap"@,
            self matches CardError::Write(m) ==> r@ == "could not encode rendered canvas: "@
                + m@,
    {
        match self {
            CardError::Decode(m) => String::from_str("could not decode image: ").concat(
                m.as_str(),
            ),
            CardError::Encode(m) => String::from_str("could not re-encode image as PNG: ").concat(
                m.as_str(),
            ),
            CardError::Naming => String::from_str(
                "Could not find code, file needs to be named <CODE>.png",
            ),
            CardError::Parse(m) => String::from_str("could not parse composed SVG: ").concat(
                m.as_str(),
            ),
            CardError::Canvas => String::from_str("Could not create pixmap"),
            CardError::Write(m) => String::from_str("could not encode rendered canvas: ").concat(
                m.as_str(),
            ),
        }
    }
}

} // verus!
