use vstd::prelude::*;

verus! {

/// A text without the white space at its two ends.
pub uninterp spec fn trimmed(s: Seq<char>) -> Seq<char>;

/// Relies on `str::trim`: leading and trailing white space removed, by the
/// text alone.
#[verifier::external_body]
fn trim(s: &str) -> (r: &str)
    ensures
        r@ == trimmed(s@),
{
    s.trim()
}

/// Whether what a command wrote to its output is shown: only where it holds
/// more than white space. It is then shown as it is, untrimmed.
pub fn shows_output(stdout: &str) -> (r: bool)
    ensures
        r == (trimmed(stdout@).len() > 0),
{
    !trim(stdout).is_empty()
}

} // verus!
