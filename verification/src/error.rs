//! Why an operation was refused.

use vstd::prelude::*;
use vstd::string::StringExecFns;

verus! {

/// A buffer does not have the structure that the operation relies on.
#[derive(Clone, Copy, Debug, PartialEq, Eq, Structural)]
pub enum FormatError {
    /// The container is shorter than its header and trailer together.
    ContainerTooSmall,
    /// A size that has to be stored does not fit a 32-bit field, or the new
    /// container would not fit in memory.
    SizeTooLarge,
    /// The field of the metadata that holds the container's size was not
    /// found, and there is no offset at which it would be safe to guess it.
    SizeFieldNotFound,
}

/// The caller asked for something that needs an override it did not give.
#[derive(Clone, Copy, Debug, PartialEq, Eq, Structural)]
pub enum ValidationError {
    /// The destination exists and overwriting was not allowed.
    OutputExists,
    /// The container or the metadata file has the wrong extension and the
    /// check was not forced.
    WrongExtensions,
}

/// Any failure of an operation on buffers.
#[derive(Clone, Copy, Debug, PartialEq, Eq, Structural)]
pub enum Error {
    Validation(ValidationError),
    Format(FormatError),
}

impl FormatError {
    /// The text shown for this error.
    pub open spec fn spec_message(self) -> Seq<char> {
        match self {
            FormatError::ContainerTooSmall => "container too small"@,
            FormatError::SizeTooLarge => "size does not fit a 32-bit field"@,
            FormatError::SizeFieldNotFound => "could not locate container-size field"@,
        }
    }

    /// The text shown for this error.
    pub fn message(&self) -> (text: String)
        ensures
            text@ == self.spec_message(),
    {
        match self {
            FormatError::ContainerTooSmall => String::from_str("container too small"),
            FormatError::SizeTooLarge => String::from_str("size does not fit a 32-bit field"),
            FormatError::SizeFieldNotFound => String::from_str(
                "could not locate container-size field",
            ),
        }
    }
}

impl ValidationError {
    /// The text shown for this error.
    pub open spec fn spec_message(self) -> Seq<char> {
        match self {
            ValidationError::OutputExists => "Output file already exists! Specify -o to overwrite"@,
            ValidationError::WrongExtensions => "Filenames do not have correct extensions! Did you enter the UEXP and UASSET in the correct order?"@,
        }
    }

    /// The text shown for this error.
    pub fn message(&self) -> (text: String)
        ensures
            text@ == self.spec_message(),
    {
        match self {
            ValidationError::OutputExists => String::from_str(
                "Output file already exists! Specify -o to overwrite",
            ),
            ValidationError::WrongExtensions => String::from_str(
                "Filenames do not have correct extensions! Did you enter the UEXP and UASSET in the correct order?",
            ),
        }
    }
}

impl Error {
    /// The text shown for this error.
    pub open spec fn spec_message(self) -> Seq<char> {
        match self {
            Error::Validation(e) => e.spec_message(),
            Error::Format(e) => e.spec_message(),
        }
    }

    /// The text shown for this error.
    pub fn message(&self) -> (text: String)
        ensures
            text@ == self.spec_message(),
    {
        match self {
            Error::Validation(e) => e.message(),
            Error::Format(e) => e.message(),
        }
    }
}

} // verus!
