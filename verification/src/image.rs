//! The trampoline image loader.
//!
//! The trampoline executable is handed in as an opaque byte sequence and
//! materialized into an anonymous, memory-backed file: a descriptor usable
//! directly as the target of an exec-from-descriptor call, with no on-disk
//! artifact. On success the file holds exactly the image bytes and is
//! positioned at its start.
//!
//! The anonymous file is opaque to the verifier, so its state is carried
//! by two names, [`memfd_bytes`] and [`memfd_pos`]; each trusted wrapper
//! states its call's effect over them, and the loader's contract is
//! proved from those statements.

use vstd::prelude::*;
use std::io::Seek;
use std::io::Write;
use crate::spawn::SpawnError;

verus! {

#[verifier::external_type_specification]
#[verifier::external_body]
pub struct ExMemfd(memfd::Memfd);

/// The bytes the anonymous file holds.
pub uninterp spec fn memfd_bytes(m: memfd::Memfd) -> Seq<u8>;

/// The anonymous file's read-write cursor.
pub uninterp spec fn memfd_pos(m: memfd::Memfd) -> nat;

/// `s` resized to `len` bytes: truncated, or extended with zeros.
pub open spec fn resized(s: Seq<u8>, len: nat) -> Seq<u8> {
    if len <= s.len() {
        s.take(len as int)
    } else {
        s + Seq::new((len - s.len()) as nat, |i: int| 0u8)
    }
}

/// `s` with `w` written over it at `pos`: the write replaces what it
/// covers and extends the string where it runs past the end.
pub open spec fn overwritten(s: Seq<u8>, pos: nat, w: Seq<u8>) -> Seq<u8> {
    s.take(pos as int) + w + if pos + w.len() < s.len() {
        s.skip((pos + w.len()) as int)
    } else {
        Seq::<u8>::empty()
    }
}

/// Relies on memfd::MemfdOptions::create: on success the result is a
/// fresh, empty, anonymous memory-backed file with its cursor at the
/// start.
#[verifier::external_body]
fn memfd_create() -> (r: Result<memfd::Memfd, ()>)
    ensures
        r matches Ok(m) ==> memfd_bytes(m) == Seq::<u8>::empty() && memfd_pos(m) == 0,
{
    memfd::MemfdOptions::default()
        .create("spawn_worker_trampoline")
        .map_err(|_| ())
}

/// Relies on File::set_len (reached through memfd::Memfd::as_file): on
/// success the file is exactly `len` bytes long — truncated, or extended
/// with zeros — and the cursor stands where it stood.
#[verifier::external_body]
fn image_set_len(m: memfd::Memfd, len: u64) -> (r: Result<memfd::Memfd, ()>)
    ensures
        r matches Ok(m2) ==> memfd_bytes(m2) == resized(memfd_bytes(m), len as nat)
            && memfd_pos(m2) == memfd_pos(m),
{
    match m.as_file().set_len(len) {
        Ok(()) => Ok(m),
        Err(_) => Err(()),
    }
}

/// Relies on Write::write_all (reached through memfd::Memfd::as_file):
/// on success every byte of `bytes` stands in the file from the old
/// cursor on, and the cursor has advanced past them.
#[verifier::external_body]
fn image_write_all(m: memfd::Memfd, bytes: &Vec<u8>) -> (r: Result<memfd::Memfd, ()>)
    requires
        memfd_pos(m) <= memfd_bytes(m).len(),
    ensures
        r matches Ok(m2) ==> memfd_bytes(m2) == overwritten(
            memfd_bytes(m),
            memfd_pos(m),
            bytes@,
        ) && memfd_pos(m2) == memfd_pos(m) + bytes@.len(),
{
    match (&mut m.as_file()).write_all(bytes.as_slice()) {
        Ok(()) => Ok(m),
        Err(_) => Err(()),
    }
}

/// Relies on Seek::rewind (reached through memfd::Memfd::as_file): on
/// success the cursor stands at the start and the contents are
/// untouched.
#[verifier::external_body]
fn image_rewind(m: memfd::Memfd) -> (r: Result<memfd::Memfd, ()>)
    ensures
        r matches Ok(m2) ==> memfd_bytes(m2) == memfd_bytes(m) && memfd_pos(m2) == 0,
{
    match (&mut m.as_file()).rewind() {
        Ok(()) => Ok(m),
        Err(_) => Err(()),
    }
}

/// Materializes the trampoline image into an anonymous memory-backed
/// file: on success the file holds exactly the image bytes and stands at
/// its start, ready to be executed from its descriptor. Every failure of
/// the underlying region is reported as an image-preparation error,
/// before any process is created.
pub fn write_trampoline(image: &Vec<u8>) -> (r: Result<memfd::Memfd, SpawnError>)
    ensures
        r matches Err(e) ==> e == SpawnError::ImagePreparation,
        r matches Ok(m) ==> memfd_bytes(m) == image@ && memfd_pos(m) == 0,
{
    let m = match memfd_create() {
        Ok(m) => m,
        Err(_) => {
            return Err(SpawnError::ImagePreparation);
        },
    };
    let m = match image_set_len(m, image.len() as u64) {
        Ok(m) => m,
        Err(_) => {
            return Err(SpawnError::ImagePreparation);
        },
    };
    let m = match image_write_all(m, image) {
        Ok(m) => m,
        Err(_) => {
            return Err(SpawnError::ImagePreparation);
        },
    };
    proof {
        assert(memfd_bytes(m) =~= image@);
    }
    let m = match image_rewind(m) {
        Ok(m) => m,
        Err(_) => {
            return Err(SpawnError::ImagePreparation);
        },
    };
    Ok(m)
}

} // verus!
