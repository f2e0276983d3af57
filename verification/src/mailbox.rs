//! Which strings name a mailbox.
//!
//! Whether an address is well formed is decided by the `lettre` crate, the
//! same code that later writes the address into the message headers. The
//! grammar is long, so it is not restated here: [`is_mailbox`] stands for
//! lettre's answer.

use vstd::prelude::*;

verus! {

/// Whether lettre reads `address` as a mailbox: either a bare address
/// (`user@domain`) or a display name followed by the address in angle
/// brackets.
pub uninterp spec fn is_mailbox(address: Seq<char>) -> bool;

/// Asks lettre whether `address` is a mailbox.
///
/// Trusted: the body calls `str::parse::<lettre::message::Mailbox>`, that is
/// lettre's `FromStr` for `Mailbox`, and keeps only whether it succeeded.
/// The contract claims no more than that the answer is a function of the
/// text alone: lettre parses the text against its grammar, then checks the
/// local part and the domain, and consults nothing else.
#[verifier::external_body]
pub(crate) fn parses_as_mailbox(address: &str) -> (ok: bool)
    ensures
        ok == is_mailbox(address@),
{
    address.parse::<lettre::message::Mailbox>().is_ok()
}

} // verus!
