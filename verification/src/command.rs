//! The two operations as a caller asks for them: the guards that come before
//! any buffer is touched, then the work on the buffers.

use crate::container::{extract, inject, inject_result, is_container, payload_of};
use crate::error::{Error, FormatError, ValidationError};
use crate::metadata::{patch_metadata, patch_result};
use vstd::prelude::*;
use vstd::string::StringExecFns;

verus! {

/// `text` as `str::to_lowercase` returns it.
pub uninterp spec fn lowercase(text: Seq<char>) -> Seq<char>;

/// Lower-cases `text` with std's `str::to_lowercase`: the result is the
/// lower-case form of `text`, which this library names and does not define.
#[verifier::external_body]
fn to_lowercase(text: &str) -> (lower: String)
    ensures
        lower@ == lowercase(text@),
{
    text.to_lowercase()
}

/// A container and its metadata after an injection.
pub struct Patched {
    /// The container with the new payload.
    pub uexp: Vec<u8>,
    /// The metadata with its size fields rewritten.
    pub uasset: Vec<u8>,
}

/// What a caller asks for, with the buffers already read.
pub enum Command {
    /// Take the payload out of a container.
    Extract {
        /// The container.
        uexp: Vec<u8>,
        /// Whether the destination exists already.
        output_exists: bool,
        /// Whether an existing destination may be replaced.
        overwrite: bool,
    },
    /// Put a new payload into a container and follow up in its metadata.
    Inject {
        /// The new payload.
        file: Vec<u8>,
        /// The container.
        uexp: Vec<u8>,
        /// The metadata of the container.
        uasset: Vec<u8>,
        /// The extension of the container's file name.
        uexp_extension: String,
        /// The extension of the metadata's file name.
        uasset_extension: String,
        /// Whether to go on with unexpected extensions.
        force: bool,
    },
}

/// What an operation hands back for writing.
pub enum Output {
    /// The payload of the container.
    Extracted(Vec<u8>),
    /// The new container and metadata.
    Injected(Patched),
}

/// The lower-cased extensions are those of a container and of metadata.
pub open spec fn extensions_expected(uexp_lower: Seq<char>, uasset_lower: Seq<char>) -> bool {
    uexp_lower == "uexp"@ && uasset_lower == "uasset"@
}

/// An injection into files with these extensions may go ahead.
pub open spec fn extensions_accepted(
    uexp_extension: Seq<char>,
    uasset_extension: Seq<char>,
    force: bool,
) -> bool {
    force || extensions_expected(lowercase(uexp_extension), lowercase(uasset_extension))
}

/// What `extract_file` returns.
pub open spec fn extract_file_result(uexp: Seq<u8>, output_exists: bool, overwrite: bool) -> Result<
    Seq<u8>,
    Error,
> {
    if output_exists && !overwrite {
        Err(Error::Validation(ValidationError::OutputExists))
    } else if !is_container(uexp) {
        Err(Error::Format(FormatError::ContainerTooSmall))
    } else {
        Ok(payload_of(uexp))
    }
}

/// What `inject_buffers` returns: the new container and the new metadata, or
/// the first failure. Nothing is handed back unless both steps succeed.
pub open spec fn inject_buffers_result(file: Seq<u8>, uexp: Seq<u8>, uasset: Seq<u8>) -> Result<
    (Seq<u8>, Seq<u8>),
    FormatError,
> {
    match inject_result(file, uexp) {
        Err(e) => Err(e),
        Ok(new_uexp) => match patch_result(uasset, uexp.len() as int, new_uexp.len() as int) {
            Err(e) => Err(e),
            Ok(new_uasset) => Ok((new_uexp, new_uasset)),
        },
    }
}

/// What `inject_file` returns, given whether the extensions were accepted.
pub open spec fn inject_file_result(
    file: Seq<u8>,
    uexp: Seq<u8>,
    uasset: Seq<u8>,
    accepted: bool,
) -> Result<(Seq<u8>, Seq<u8>), Error> {
    if !accepted {
        Err(Error::Validation(ValidationError::WrongExtensions))
    } else {
        match inject_buffers_result(file, uexp, uasset) {
            Err(e) => Err(Error::Format(e)),
            Ok(buffers) => Ok(buffers),
        }
    }
}

/// Refuses to replace an existing destination unless that is allowed.
pub fn check_output(output_exists: bool, overwrite: bool) -> (checked: Result<
    (),
    ValidationError,
>)
    ensures
        checked is Ok <==> !output_exists || overwrite,
        checked matches Err(e) ==> e == ValidationError::OutputExists,
{
    if output_exists && !overwrite {
        Err(ValidationError::OutputExists)
    } else {
        Ok(())
    }
}

/// Whether two extensions, already lower-cased, are `uexp` and `uasset` in
/// this order.
pub fn extensions_match(uexp_lower: &String, uasset_lower: &String) -> (expected: bool)
    ensures
        expected == extensions_expected(uexp_lower@, uasset_lower@),
{
    let uexp = String::from_str("uexp");
    let uasset = String::from_str("uasset");
    *uexp_lower == uexp && *uasset_lower == uasset
}

/// Refuses file names whose extensions, in any letter case, are not `uexp`
/// for the container and `uasset` for the metadata, unless forced.
pub fn check_extensions(uexp_extension: &str, uasset_extension: &str, force: bool) -> (checked:
    Result<(), ValidationError>)
    ensures
        checked is Ok <==> extensions_accepted(uexp_extension@, uasset_extension@, force),
        checked matches Err(e) ==> e == ValidationError::WrongExtensions,
{
    let uexp_lower = to_lowercase(uexp_extension);
    let uasset_lower = to_lowercase(uasset_extension);
    if !extensions_match(&uexp_lower, &uasset_lower) && !force {
        Err(ValidationError::WrongExtensions)
    } else {
        Ok(())
    }
}

/// The payload of the container `uexp`, for a destination that may be
/// written.
///
/// Fails with `OutputExists` exactly when the destination exists and may not
/// be overwritten, and otherwise with `ContainerTooSmall` exactly when `uexp`
/// is shorter than a header and a trailer together.
pub fn extract_file(uexp: &[u8], output_exists: bool, overwrite: bool) -> (payload: Result<
    Vec<u8>,
    Error,
>)
    ensures
        match payload {
            Ok(bytes) => extract_file_result(uexp@, output_exists, overwrite) == Ok::<
                Seq<u8>,
                Error,
            >(bytes@),
            Err(e) => extract_file_result(uexp@, output_exists, overwrite) == Err::<
                Seq<u8>,
                Error,
            >(e),
        },
{
    match check_output(output_exists, overwrite) {
        Err(e) => { return Err(Error::Validation(e)); },
        Ok(()) => {},
    }
    match extract(uexp) {
        Ok(bytes) => Ok(bytes),
        Err(e) => Err(Error::Format(e)),
    }
}

/// Puts `file` into the container `uexp` as its payload and rewrites the size
/// fields of the metadata `uasset` to follow. Every field is located before
/// anything is handed back, so a failure leaves nothing to write.
///
/// Fails with the error of the injection where that fails, and otherwise
/// with the error of the metadata patch where that fails.
pub fn inject_buffers(file: &[u8], uexp: &[u8], uasset: &[u8]) -> (patched: Result<
    Patched,
    FormatError,
>)
    ensures
        match patched {
            Ok(p) => inject_buffers_result(file@, uexp@, uasset@) == Ok::<
                (Seq<u8>, Seq<u8>),
                FormatError,
            >((p.uexp@, p.uasset@)),
            Err(e) => inject_buffers_result(file@, uexp@, uasset@) == Err::<
                (Seq<u8>, Seq<u8>),
                FormatError,
            >(e),
        },
{
    let new_uexp = match inject(file, uexp) {
        Ok(bytes) => bytes,
        Err(e) => { return Err(e); },
    };
    let mut new_uasset = vstd::slice::slice_to_vec(uasset);
    match patch_metadata(&mut new_uasset, uexp, new_uexp.as_slice()) {
        Ok(()) => Ok(Patched { uexp: new_uexp, uasset: new_uasset }),
        Err(e) => Err(e),
    }
}

/// Checks the extensions of the two file names, then injects as
/// `inject_buffers` does.
///
/// Fails with `WrongExtensions` exactly when the extensions are not accepted,
/// and otherwise with the format error of `inject_buffers` where that fails.
pub fn inject_file(
    file: &[u8],
    uexp: &[u8],
    uasset: &[u8],
    uexp_extension: &str,
    uasset_extension: &str,
    force: bool,
) -> (patched: Result<Patched, Error>)
    ensures
        match patched {
            Ok(p) => inject_file_result(
                file@,
                uexp@,
                uasset@,
                extensions_accepted(uexp_extension@, uasset_extension@, force),
            ) == Ok::<(Seq<u8>, Seq<u8>), Error>((p.uexp@, p.uasset@)),
            Err(e) => inject_file_result(
                file@,
                uexp@,
                uasset@,
                extensions_accepted(uexp_extension@, uasset_extension@, force),
            ) == Err::<(Seq<u8>, Seq<u8>), Error>(e),
        },
{
    match check_extensions(uexp_extension, uasset_extension, force) {
        Err(e) => { return Err(Error::Validation(e)); },
        Ok(()) => {},
    }
    match inject_buffers(file, uexp, uasset) {
        Ok(p) => Ok(p),
        Err(e) => Err(Error::Format(e)),
    }
}

/// Carries `command` out: an extraction as `extract_file` does, an injection
/// as `inject_file` does.
pub fn run(command: Command) -> (outcome: Result<Output, Error>)
    ensures
        match command {
            Command::Extract { uexp, output_exists, overwrite } => match outcome {
                Ok(Output::Extracted(bytes)) => extract_file_result(
                    uexp@,
                    output_exists,
                    overwrite,
                ) == Ok::<Seq<u8>, Error>(bytes@),
                Ok(Output::Injected(_)) => false,
                Err(e) => extract_file_result(uexp@, output_exists, overwrite) == Err::<
                    Seq<u8>,
                    Error,
                >(e),
            },
            Command::Inject { file, uexp, uasset, uexp_extension, uasset_extension, force } => {
                let accepted = extensions_accepted(uexp_extension@, uasset_extension@, force);
                match outcome {
                    Ok(Output::Injected(p)) => inject_file_result(file@, uexp@, uasset@, accepted)
                        == Ok::<(Seq<u8>, Seq<u8>), Error>((p.uexp@, p.uasset@)),
                    Ok(Output::Extracted(_)) => false,
                    Err(e) => inject_file_result(file@, uexp@, uasset@, accepted) == Err::<
                        (Seq<u8>, Seq<u8>),
                        Error,
                    >(e),
                }
            },
        },
{
    match command {
        Command::Extract { uexp, output_exists, overwrite } => {
            match extract_file(uexp.as_slice(), output_exists, overwrite) {
                Ok(bytes) => Ok(Output::Extracted(bytes)),
                Err(e) => Err(e),
            }
        },
        Command::Inject { file, uexp, uasset, uexp_extension, uasset_extension, force } => {
            match inject_file(
                file.as_slice(),
                uexp.as_slice(),
                uasset.as_slice(),
                uexp_extension.as_str(),
                uasset_extension.as_str(),
                force,
            ) {
                Ok(p) => Ok(Output::Injected(p)),
                Err(e) => Err(e),
            }
        },
    }
}

} // verus!
