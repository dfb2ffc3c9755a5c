//! Undoing the compression around a tar archive.
//!
//! An archive arrives as bytes with a tag that says how it is wrapped. The
//! tag alone picks the decoder: the bytes are never sniffed.

use std::io::Read;
use vstd::prelude::*;

verus! {

/// How a tar archive is wrapped: bare, or inside one layer of compression.
#[derive(Clone, Copy, Debug, PartialEq, Eq, Structural)]
pub enum TarBasedFmt {
    /// Bare tar.
    Tar,
    /// Tar inside bzip2.
    Tbz2,
    /// Tar inside gzip.
    Tgz,
    /// Tar inside xz.
    Txz,
    /// Tar inside zstd.
    Tzstd,
}

/// The error type of `std::io`. It is carried through as it comes: nothing
/// here looks inside one.
#[verifier::external_type_specification]
#[verifier::external_body]
pub struct ExIoError(std::io::Error);

/// What `bzip2::bufread::BzDecoder` reads out of `data` up to the end of its
/// output; `None` where a read fails.
pub uninterp spec fn bzip2_decoded(data: Seq<u8>) -> Option<Seq<u8>>;

/// What `flate2::bufread::GzDecoder` reads out of `data` up to the end of its
/// output; `None` where a read fails.
pub uninterp spec fn gzip_decoded(data: Seq<u8>) -> Option<Seq<u8>>;

/// What `xz2::bufread::XzDecoder` reads out of `data` up to the end of its
/// output; `None` where a read fails.
pub uninterp spec fn xz_decoded(data: Seq<u8>) -> Option<Seq<u8>>;

/// What `zstd::stream::read::Decoder`, made without a dictionary, reads out
/// of `data` up to the end of its output; `None` where making it or a read
/// fails.
pub uninterp spec fn zstd_decoded(data: Seq<u8>) -> Option<Seq<u8>>;

/// The bytes in `r`, where it holds any.
pub open spec fn bytes_of(r: Result<Vec<u8>, std::io::Error>) -> Option<Seq<u8>> {
    match r {
        Ok(bytes) => Some(bytes@),
        Err(_) => None,
    }
}

/// The tar stream inside `data` when it is wrapped as `fmt` says: `data`
/// itself for bare tar, else what the decoder of that one format makes of it.
pub open spec fn decoded(fmt: TarBasedFmt, data: Seq<u8>) -> Option<Seq<u8>> {
    match fmt {
        TarBasedFmt::Tar => Some(data),
        TarBasedFmt::Tbz2 => bzip2_decoded(data),
        TarBasedFmt::Tgz => gzip_decoded(data),
        TarBasedFmt::Txz => xz_decoded(data),
        TarBasedFmt::Tzstd => zstd_decoded(data),
    }
}

/// Drains a `bzip2::bufread::BzDecoder::new` over `data` with `read_to_end`.
/// The contract claims that decoding depends on `data` alone: the bytes that
/// come out, or the failure, are those that [`bzip2_decoded`] names.
#[verifier::external_body]
fn bzip2_decode(data: &[u8]) -> (r: Result<Vec<u8>, std::io::Error>)
    ensures
        bytes_of(r) == bzip2_decoded(data@),
{
    let mut out = Vec::new();
    bzip2::bufread::BzDecoder::new(data).read_to_end(&mut out)?;
    Ok(out)
}

/// Drains a `flate2::bufread::GzDecoder::new` over `data` with `read_to_end`.
/// The contract claims that decoding depends on `data` alone: the bytes that
/// come out, or the failure, are those that [`gzip_decoded`] names.
#[verifier::external_body]
fn gzip_decode(data: &[u8]) -> (r: Result<Vec<u8>, std::io::Error>)
    ensures
        bytes_of(r) == gzip_decoded(data@),
{
    let mut out = Vec::new();
    flate2::bufread::GzDecoder::new(data).read_to_end(&mut out)?;
    Ok(out)
}

/// Drains an `xz2::bufread::XzDecoder::new` over `data` with `read_to_end`.
/// The contract claims that decoding depends on `data` alone: the bytes that
/// come out, or the failure, are those that [`xz_decoded`] names.
#[verifier::external_body]
fn xz_decode(data: &[u8]) -> (r: Result<Vec<u8>, std::io::Error>)
    ensures
        bytes_of(r) == xz_decoded(data@),
{
    let mut out = Vec::new();
    xz2::bufread::XzDecoder::new(data).read_to_end(&mut out)?;
    Ok(out)
}

/// Drains a `zstd::stream::read::Decoder::with_buffer` over `data` with
/// `read_to_end`. The contract claims that decoding depends on `data` alone:
/// the bytes that come out, or the failure, are those that [`zstd_decoded`]
/// names.
#[verifier::external_body]
fn zstd_decode(data: &[u8]) -> (r: Result<Vec<u8>, std::io::Error>)
    ensures
        bytes_of(r) == zstd_decoded(data@),
{
    let mut out = Vec::new();
    zstd::stream::read::Decoder::with_buffer(data)?.read_to_end(&mut out)?;
    Ok(out)
}

/// Unwraps the tar stream in `dat` with the decoder that `fmt` names, and
/// with no other. Bare tar comes back as it went in and cannot fail.
pub fn create_tar_decoder(dat: Vec<u8>, fmt: TarBasedFmt) -> (r: Result<Vec<u8>, std::io::Error>)
    ensures
        bytes_of(r) == decoded(fmt, dat@),
        fmt == TarBasedFmt::Tar ==> r is Ok,
{
    match fmt {
        TarBasedFmt::Tar => Ok(dat),
        TarBasedFmt::Tbz2 => bzip2_decode(dat.as_slice()),
        TarBasedFmt::Tgz => gzip_decode(dat.as_slice()),
        TarBasedFmt::Txz => xz_decode(dat.as_slice()),
        TarBasedFmt::Tzstd => zstd_decode(dat.as_slice()),
    }
}

} // verus!
