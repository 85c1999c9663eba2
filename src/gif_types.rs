//! Declarations of the `gif` crate's types that the library works with.
use vstd::prelude::*;
use gif::ColorOutput as GifColorOutput;
use gif::DecodeOptions as GifDecodeOptions;
use gif::DisposalMethod as GifDisposalMethod;
use gif::Frame as GifFrame;

verus! {

#[verifier::external_type_specification]
pub struct ExDisposalMethod(GifDisposalMethod);

#[verifier::external_type_specification]
pub struct ExRepeat(gif::Repeat);

#[verifier::external_type_specification]
pub struct ExColorOutput(GifColorOutput);

#[verifier::external_type_specification]
pub struct ExGifFrame<'a>(GifFrame<'a>);

#[verifier::external_type_specification]
#[verifier::external_body]
pub struct ExMemoryLimit(gif::MemoryLimit);

#[verifier::external_type_specification]
#[verifier::external_body]
pub struct ExDecodeOptions(GifDecodeOptions);

#[verifier::external_type_specification]
#[verifier::external_body]
pub struct ExEncodingError(gif::EncodingError);

#[verifier::external_type_specification]
#[verifier::external_body]
pub struct ExDecodingError(gif::DecodingError);

} // verus!
