//! Outside types that the library's signatures name.

use vstd::prelude::*;
use hound::Error as WavDecodeError;
use std::io::Error as IoFailure;

verus! {

/// Declares hound's error type, so that a decoding failure can be mapped.
#[verifier::external_type_specification]
#[verifier::external_body]
pub struct ExWavDecodeError(WavDecodeError);

/// Declares std's I/O error type, so that an I/O failure can be mapped.
#[verifier::external_type_specification]
#[verifier::external_body]
pub struct ExIoFailure(IoFailure);

} // verus!
