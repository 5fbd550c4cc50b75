use vstd::prelude::*;

verus! {

/// Why a conversion gave no PNG.
#[derive(Debug, Copy, Clone, PartialEq, Eq, Structural)]
pub enum AwebpToPngError {
    /// The bytes are not an animation that the decoder accepts.
    DecodeAwebpFailed,
    /// The animation ends before the frame that was asked for.
    AwebpSpecificFrameIsNone,
    /// The frame's pixels are not laid out as RGBA.
    ToImageFailed,
    /// The PNG encoder refused the pixel buffer.
    EncodePngFailed,
}

impl AwebpToPngError {
    /// The text that stands for each error: the name of its variant.
    pub open spec fn text(self) -> Seq<char> {
        match self {
            AwebpToPngError::DecodeAwebpFailed => "DecodeAwebpFailed"@,
            AwebpToPngError::AwebpSpecificFrameIsNone => "AwebpSpecificFrameIsNone"@,
            AwebpToPngError::ToImageFailed => "ToImageFailed"@,
            AwebpToPngError::EncodePngFailed => "EncodePngFailed"@,
        }
    }

    /// The error as text, for a message to the user.
    pub fn message(&self) -> (text: String)
        ensures
            text@ == self.text(),
    {
        match self {
            AwebpToPngError::DecodeAwebpFailed => "DecodeAwebpFailed".to_owned(),
            AwebpToPngError::AwebpSpecificFrameIsNone => "AwebpSpecificFrameIsNone".to_owned(),
            AwebpToPngError::ToImageFailed => "ToImageFailed".to_owned(),
            AwebpToPngError::EncodePngFailed => "EncodePngFailed".to_owned(),
        }
    }
}

} // verus!
