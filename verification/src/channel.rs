use vstd::prelude::*;
use std::sync::mpsc::Sender;

verus! {

/// The sending half of a standard channel, carried through opaquely.
#[verifier::external_type_specification]
#[verifier::external_body]
#[verifier::reject_recursive_types(T)]
pub struct ExSender<T>(Sender<T>);

/// Names the phrases offered so far through a sender of phrases: every item
/// given to its `send`, oldest first. The standard library delivers each one
/// to the receiving thread, in that order, while the receiver lives, and
/// drops it once the receiver is gone.
pub uninterp spec fn offered_phrases(sender: Sender<String>) -> Seq<Seq<char>>;

/// Names the samples offered so far through a sender of encoded samples, as
/// [`offered_phrases`] does for phrases.
pub uninterp spec fn offered_samples(sender: Sender<&'static [u8]>) -> Seq<Seq<u8>>;

/// Calls `std::sync::mpsc::Sender::send` with a phrase and drops its result:
/// the phrase joins the end of what was offered through the sender. The call
/// neither blocks nor panics; whether the receiver still lives is not claimed.
#[verifier::external_body]
pub(crate) fn offer_phrase(sender: &mut Sender<String>, phrase: String)
    ensures
        offered_phrases(*final(sender)) == offered_phrases(*old(sender)).push(phrase@),
{
    let _ = sender.send(phrase);
}

/// Calls `std::sync::mpsc::Sender::send` with an encoded sample and drops its
/// result: the sample joins the end of what was offered through the sender.
/// The call neither blocks nor panics; whether the receiver still lives is
/// not claimed.
#[verifier::external_body]
pub(crate) fn offer_sample(sender: &mut Sender<&'static [u8]>, sample: &'static [u8])
    ensures
        offered_samples(*final(sender)) == offered_samples(*old(sender)).push(sample@),
{
    let _ = sender.send(sample);
}

} // verus!
