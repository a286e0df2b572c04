//! Reading the sender and recipient of an email as mailboxes.

use lettre::address::AddressError;
use lettre::message::Mailbox;
use vstd::prelude::*;

verus! {

/// lettre's mailbox: an optional display name and an email address.
#[verifier::external_type_specification]
#[verifier::external_body]
pub struct ExMailbox(lettre::message::Mailbox);

/// lettre's error for a string that is not a valid mailbox.
#[verifier::external_type_specification]
#[verifier::external_body]
pub struct ExAddressError(lettre::address::AddressError);

/// What lettre's `<Mailbox as FromStr>::from_str` gives for a string: a mailbox,
/// or the reason the string is not one. It depends on the string alone.
pub uninterp spec fn mailbox_parse(s: Seq<char>) -> Result<Mailbox, AddressError>;

/// lettre accepts `s` as a mailbox.
pub open spec fn mailbox_accepts(s: Seq<char>) -> bool {
    mailbox_parse(s) is Ok
}

/// Calls `<Mailbox as FromStr>::from_str` through `str::parse`; its result is
/// named `mailbox_parse` of the string.
#[verifier::external_body]
pub(crate) fn parse_mailbox(s: &str) -> (r: Result<Mailbox, AddressError>)
    ensures
        r == mailbox_parse(s@),
{
    s.parse::<Mailbox>()
}

/// The sender and recipient of an email from `from` and `to`: the sender is read
/// first, so its error comes first.
pub open spec fn envelope_for(from: Seq<char>, to: Seq<char>) -> Result<(Mailbox, Mailbox), AddressError> {
    match mailbox_parse(from) {
        Err(e) => Err(e),
        Ok(f) => match mailbox_parse(to) {
            Err(e) => Err(e),
            Ok(t) => Ok((f, t)),
        },
    }
}

/// The sender and recipient mailboxes of an email from `from` to `to`.
pub fn envelope(from: &str, to: &str) -> (r: Result<(Mailbox, Mailbox), AddressError>)
    ensures
        r == envelope_for(from@, to@),
        r is Ok == (mailbox_accepts(from@) && mailbox_accepts(to@)),
{
    let sender = match parse_mailbox(from) {
        Ok(m) => m,
        Err(e) => {
            return Err(e);
        },
    };
    match parse_mailbox(to) {
        Ok(recipient) => Ok((sender, recipient)),
        Err(e) => Err(e),
    }
}

} // verus!
