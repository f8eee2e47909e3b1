//! rodio's decoder builder, as the library calls it.

use vstd::prelude::*;
use rodio::decoder::DecoderBuilder as RodioBuilder;

verus! {

#[verifier::external_type_specification]
#[verifier::external_body]
#[verifier::reject_recursive_types(R)]
pub struct ExRodioDecoderBuilder<R>(RodioBuilder<R>);

/// Relies on `DecoderBuilder::new`.
#[verifier::external_body]
pub(crate) fn rodio_builder<R: std::io::Read + std::io::Seek + Send + Sync + 'static>(
) -> RodioBuilder<R> {
    RodioBuilder::new()
}

/// Relies on `DecoderBuilder::with_data`.
#[verifier::external_body]
pub(crate) fn rodio_with_data<R: std::io::Read + std::io::Seek + Send + Sync + 'static>(
    b: RodioBuilder<R>,
    data: R,
) -> RodioBuilder<R> {
    b.with_data(data)
}

/// Relies on `DecoderBuilder::with_hint`.
#[verifier::external_body]
pub(crate) fn rodio_with_hint<R: std::io::Read + std::io::Seek + Send + Sync + 'static>(
    b: RodioBuilder<R>,
    hint: &str,
) -> RodioBuilder<R> {
    b.with_hint(hint)
}

/// Relies on `DecoderBuilder::with_mime_type`.
#[verifier::external_body]
pub(crate) fn rodio_with_mime_type<R: std::io::Read + std::io::Seek + Send + Sync + 'static>(
    b: RodioBuilder<R>,
    mime_type: &str,
) -> RodioBuilder<R> {
    b.with_mime_type(mime_type)
}

/// Relies on `DecoderBuilder::with_byte_len`.
#[verifier::external_body]
pub(crate) fn rodio_with_byte_len<R: std::io::Read + std::io::Seek + Send + Sync + 'static>(
    b: RodioBuilder<R>,
    byte_len: u64,
) -> RodioBuilder<R> {
    b.with_byte_len(byte_len)
}

/// Relies on `DecoderBuilder::with_seekable`.
#[verifier::external_body]
pub(crate) fn rodio_with_seekable<R: std::io::Read + std::io::Seek + Send + Sync + 'static>(
    b: RodioBuilder<R>,
    seekable: bool,
) -> RodioBuilder<R> {
    b.with_seekable(seekable)
}

/// Relies on `DecoderBuilder::with_gapless`.
#[verifier::external_body]
pub(crate) fn rodio_with_gapless<R: std::io::Read + std::io::Seek + Send + Sync + 'static>(
    b: RodioBuilder<R>,
    gapless: bool,
) -> RodioBuilder<R> {
    b.with_gapless(gapless)
}

/// Relies on `DecoderBuilder::with_coarse_seek`.
#[verifier::external_body]
pub(crate) fn rodio_with_coarse_seek<R: std::io::Read + std::io::Seek + Send + Sync + 'static>(
    b: RodioBuilder<R>,
    coarse_seek: bool,
) -> RodioBuilder<R> {
    b.with_coarse_seek(coarse_seek)
}

} // verus!
