//! The trampoline entry point's decisions.
//!
//! On the far side of the exec the trampoline process receives its
//! argument vector, loads the named library, resolves the named symbol
//! and calls it. The loading itself happens in the new process image;
//! what stands here is every decision that process makes: how the
//! argument vector is read back into a (library path, symbol name) pair,
//! and which exit status each outcome earns.

use vstd::prelude::*;
use crate::cbytes::{CBytes, nul_free, copy_bytes};

verus! {

/// How the trampoline reads its argument vector: exactly two positional
/// arguments after the program name, the library path and the symbol
/// name; anything else is refused.
pub open spec fn parse_model(args: Seq<Seq<u8>>) -> Option<(Seq<u8>, Seq<u8>)> {
    if args.len() == 3 {
        Some((args[1], args[2]))
    } else {
        None
    }
}

/// Reads the trampoline's argument vector, as the fresh process receives
/// it (each argument already stripped of its C terminator), back into
/// the (library path, symbol name) pair it was built from.
pub fn parse_args(args: &Vec<Vec<u8>>) -> (r: Option<(CBytes, CBytes)>)
    requires
        forall|i: int| 0 <= i < args@.len() ==> nul_free(args@[i]@),
    ensures
        match r {
            Some(p) => {
                &&& parse_model(args@.map_values(|a: Vec<u8>| a@)) matches Some(m)
                    && p.0@ == m.0 && p.1@ == m.1
                &&& p.0.wf()
                &&& p.1.wf()
            },
            None => parse_model(args@.map_values(|a: Vec<u8>| a@)) is None,
        },
{
    if args.len() == 3 {
        let path = CBytes { bytes: copy_bytes(&args[1]) };
        let symbol = CBytes { bytes: copy_bytes(&args[2]) };
        Some((path, symbol))
    } else {
        None
    }
}

/// What became of the trampoline's single duty.
#[derive(Clone, Copy, Debug, PartialEq, Eq, Structural)]
pub enum InvokeOutcome {
    /// The argument vector was not the expected pair.
    BadArguments,
    /// The named library could not be loaded.
    LibraryLoadFailed,
    /// The library held no symbol of the given name.
    SymbolMissing,
    /// The resolved function was called and returned normally.
    Invoked,
}

/// The exit status the trampoline process forwards: 0 exactly when the
/// invoked function returned normally, 1 for every failure.
pub fn trampoline_exit_code(outcome: &InvokeOutcome) -> (r: i32)
    ensures
        (r == 0) <==> (*outcome is Invoked),
        r == 0 || r == 1,
{
    match outcome {
        InvokeOutcome::Invoked => 0,
        _ => 1,
    }
}

} // verus!
