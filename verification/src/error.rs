//! Failures of a conversion run and how severe each one is.

use vstd::prelude::*;

verus! {

/// What can go wrong between reading an image and showing the result.
///
/// Only `ZeroDotSize` arises inside the conversion itself. The other three
/// carry the report of the collaborator that failed, word for word.
#[derive(Clone, Debug, PartialEq, Eq)]
pub enum NdotterError {
    /// The configured dot size is zero.
    ZeroDotSize,
    /// The source could not be read or understood as an image.
    ImageDecodeError(String),
    /// The finished document could not be stored.
    DocumentWriteError(String),
    /// The stored document could not be handed to a viewer.
    PostProcessError(String),
}

impl NdotterError {
    /// A failure is fatal unless it happened after the document was stored.
    pub open spec fn fatal(self) -> bool {
        !(self is PostProcessError)
    }

    /// The one-line description of each kind of failure.
    pub open spec fn headline(self) -> Seq<char> {
        match self {
            NdotterError::ZeroDotSize => "Dot size must not be 0"@,
            NdotterError::ImageDecodeError(_) => "Cannot load image"@,
            NdotterError::DocumentWriteError(_) => "Cannot write document"@,
            NdotterError::PostProcessError(_) => "Cannot open document"@,
        }
    }

    /// The collaborator's report, where the failure carries one.
    pub open spec fn report(self) -> Option<Seq<char>> {
        match self {
            NdotterError::ZeroDotSize => None,
            NdotterError::ImageDecodeError(text) => Some(text@),
            NdotterError::DocumentWriteError(text) => Some(text@),
            NdotterError::PostProcessError(text) => Some(text@),
        }
    }

    /// Whether the run as a whole has failed.
    pub fn is_fatal(&self) -> (fatal: bool)
        ensures
            fatal == self.fatal(),
    {
        match self {
            NdotterError::PostProcessError(_) => false,
            _ => true,
        }
    }

    /// The one-line description of the failure.
    pub fn message(&self) -> (text: &'static str)
        ensures
            text@ == self.headline(),
    {
        match self {
            NdotterError::ZeroDotSize => "Dot size must not be 0",
            NdotterError::ImageDecodeError(_) => "Cannot load image",
            NdotterError::DocumentWriteError(_) => "Cannot write document",
            NdotterError::PostProcessError(_) => "Cannot open document",
        }
    }

    /// The collaborator's report, where the failure carries one.
    pub fn detail(&self) -> (text: Option<&String>)
        ensures
            match text {
                Some(t) => self.report() == Some(t@),
                None => self.report() is None,
            },
    {
        match self {
            NdotterError::ZeroDotSize => None,
            NdotterError::ImageDecodeError(text) => Some(text),
            NdotterError::DocumentWriteError(text) => Some(text),
            NdotterError::PostProcessError(text) => Some(text),
        }
    }
}

} // verus!
