//! The compute step behind the two-argument case-folding call. The host-side
//! entry point reads the input atom's characters — an unbound or non-atom
//! input is an instantiation fault, reported on the host's warning channel
//! before the call fails — and unifies the folded text back; both halves are
//! marshalling and stay outside this crate.

use vstd::prelude::*;

verus! {

/// The faults a call reports through the host's warning channel before
/// failing, as opposed to ordinary failure.
#[derive(Clone, Copy, PartialEq, Eq, Structural, Debug)]
pub enum Fault {
    /// A required input was unbound or not an atom.
    Instantiation,
}

/// Names the character sequence that case folding produces for `s`.
pub uninterp spec fn lower_of(s: Seq<char>) -> Seq<char>;

/// Relies on str::to_lowercase: the result is a function of the input
/// characters alone.
#[verifier::external_body]
fn to_lower(s: &str) -> (r: String)
    ensures
        r@ == lower_of(s@),
{
    s.to_lowercase()
}

/// Case-fold one atom's text; an absent input — the host could not read an
/// atom out of the argument — is an instantiation fault.
pub fn fold_atom(input: Option<&str>) -> (r: Result<String, Fault>)
    ensures
        match input {
            Some(s) => r matches Ok(t) && t@ == lower_of(s@),
            None => r == Err::<String, Fault>(Fault::Instantiation),
        },
{
    match input {
        Some(s) => Ok(to_lower(s)),
        None => Err(Fault::Instantiation),
    }
}

} // verus!
