//! Byte strings destined for a C-style argument or environment vector.
//!
//! Everything a child process receives through `argv` or `envp` is a
//! NUL-terminated byte string. The spawn protocol lays these buffers out
//! completely before the process is created, so the values here are plain
//! byte vectors with their invariants stated up front.

use vstd::prelude::*;

verus! {

/// Holds when no byte of `s` is NUL.
pub open spec fn nul_free(s: Seq<u8>) -> bool {
    forall|i: int| 0 <= i < s.len() ==> s[i] != 0u8
}

/// The byte string `s` with its C terminator appended.
pub open spec fn terminated(s: Seq<u8>) -> Seq<u8> {
    s + seq![0u8]
}

/// Holds of a complete C string: nonempty, its terminator standing
/// exactly at its end and nowhere else.
pub open spec fn is_c_string(s: Seq<u8>) -> bool {
    s.len() > 0 && s.last() == 0u8 && nul_free(s.drop_last())
}

/// Terminating a NUL-free byte string yields a C string.
pub proof fn lemma_terminated_is_c_string(s: Seq<u8>)
    requires
        nul_free(s),
    ensures
        is_c_string(terminated(s)),
{
    assert(terminated(s).drop_last() =~= s);
}

/// A byte string with no interior NUL byte: the form a C string takes
/// before its terminator is appended.
pub struct CBytes {
    pub bytes: Vec<u8>,
}

impl CBytes {
    /// The byte sequence this value stands for.
    pub open spec fn view(&self) -> Seq<u8> {
        self.bytes@
    }

    /// Well-formed: no interior NUL byte.
    pub open spec fn wf(&self) -> bool {
        nul_free(self.bytes@)
    }

    /// Accepts exactly the byte strings free of NUL bytes.
    pub fn new(bytes: Vec<u8>) -> (r: Option<CBytes>)
        ensures
            match r {
                Some(c) => c.wf() && c@ == bytes@,
                None => !nul_free(bytes@),
            },
    {
        if bytes_nul_free(&bytes) {
            Some(CBytes { bytes })
        } else {
            None
        }
    }

    /// A fresh copy of the bytes this value stands for.
    pub fn to_bytes(&self) -> (r: Vec<u8>)
        ensures
            r@ == self@,
    {
        copy_bytes(&self.bytes)
    }
}

/// Decides whether `v` is free of NUL bytes.
pub fn bytes_nul_free(v: &Vec<u8>) -> (r: bool)
    ensures
        r == nul_free(v@),
{
    let mut i: usize = 0;
    while i < v.len()
        invariant
            i <= v@.len(),
            forall|j: int| 0 <= j < i ==> v@[j] != 0u8,
        decreases v@.len() - i,
    {
        if v[i] == 0u8 {
            return false;
        }
        i += 1;
    }
    true
}

/// A fresh byte vector equal to `src`.
pub fn copy_bytes(src: &Vec<u8>) -> (r: Vec<u8>)
    ensures
        r@ == src@,
{
    let mut r: Vec<u8> = Vec::new();
    push_all(&mut r, src);
    assert(r@ =~= src@);
    r
}

/// Appends all of `src` to `dst`.
pub fn push_all(dst: &mut Vec<u8>, src: &Vec<u8>)
    ensures
        final(dst)@ == old(dst)@ + src@,
{
    let mut i: usize = 0;
    while i < src.len()
        invariant
            i <= src@.len(),
            dst@ == old(dst)@ + src@.take(i as int),
        decreases src@.len() - i,
    {
        dst.push(src[i]);
        i += 1;
        assert(dst@ =~= old(dst)@ + src@.take(i as int));
    }
    assert(dst@ =~= old(dst)@ + src@);
}

/// `b` with the C terminator appended: the exact buffer handed to the
/// child process.
pub fn nul_terminated(b: &CBytes) -> (r: Vec<u8>)
    requires
        b.wf(),
    ensures
        r@ == terminated(b@),
        r@.len() == b@.len() + 1,
{
    let mut r = copy_bytes(&b.bytes);
    r.push(0u8);
    assert(r@ =~= terminated(b@));
    r
}

} // verus!
