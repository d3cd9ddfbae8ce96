use vstd::prelude::*;
use rand::seq::IndexedRandom;
use std::sync::mpsc::Sender;
use crate::channel::{offer_sample, offered_samples};

verus! {

/// The kinds of sound the overlay plays.
#[derive(Clone, Copy, Debug, PartialEq, Eq, Structural)]
pub enum SoundCategory {
    /// Plain whip cracks.
    WhipOnly,
    /// The harsher sounds of a high combo (yowls and screams).
    Escalated,
}

/// Calls rand's `IndexedRandom::choose` on `bank` with the thread-local
/// generator: `None` exactly when the bank is empty, otherwise one of its
/// entries, picked by chance. Which entry comes out is left unsaid. (The
/// generator panics only if the operating system's random source cannot seed
/// it, which no argument can rule out.)
#[verifier::external_body]
fn choose_sample(bank: &[&'static [u8]]) -> (pick: Option<&'static [u8]>)
    ensures
        pick is None <==> bank@.len() == 0,
        pick matches Some(s) ==> bank@.contains(s),
{
    bank.choose(&mut rand::rng()).copied()
}

/// Picks a random sample of a bank: none when the bank is empty, otherwise
/// one of its samples.
pub fn pick_from(bank: &[&'static [u8]]) -> (pick: Option<&'static [u8]>)
    ensures
        pick is None <==> bank@.len() == 0,
        pick matches Some(s) ==> bank@.contains(s),
{
    choose_sample(bank)
}

/// Plays sounds by handing encoded samples to the thread that owns the audio
/// output.
pub struct AudioPlayer {
    sender: Sender<&'static [u8]>,
    whip_sounds: Vec<&'static [u8]>,
    escalated_sounds: Vec<&'static [u8]>,
}

impl AudioPlayer {
    /// The channel end through which the player feeds the audio thread.
    pub closed spec fn channel(&self) -> Sender<&'static [u8]> {
        self.sender
    }

    /// The encoded samples of the whip bank.
    pub closed spec fn whip_sounds(&self) -> Seq<&'static [u8]> {
        self.whip_sounds@
    }

    /// The encoded samples of the escalated bank.
    pub closed spec fn escalated_sounds(&self) -> Seq<&'static [u8]> {
        self.escalated_sounds@
    }

    /// The samples handed to the audio thread through the player's channel,
    /// oldest first.
    pub open spec fn played(&self) -> Seq<Seq<u8>> {
        offered_samples(self.channel())
    }

    /// The samples of a category's bank.
    pub open spec fn bank(&self, category: SoundCategory) -> Seq<&'static [u8]> {
        match category {
            SoundCategory::WhipOnly => self.whip_sounds(),
            SoundCategory::Escalated => self.escalated_sounds(),
        }
    }

    /// A player that sends to `sender`, plays `whip_sounds` for plain cracks
    /// and `escalated_sounds` for the cracks of a high combo.
    pub fn with_sounds(
        sender: Sender<&'static [u8]>,
        whip_sounds: Vec<&'static [u8]>,
        escalated_sounds: Vec<&'static [u8]>,
    ) -> (p: AudioPlayer)
        ensures
            p.channel() == sender,
            p.whip_sounds() == whip_sounds@,
            p.escalated_sounds() == escalated_sounds@,
    {
        AudioPlayer { sender, whip_sounds, escalated_sounds }
    }

    /// The samples that a category draws from.
    pub fn bank_for(&self, category: SoundCategory) -> (bank: &[&'static [u8]])
        ensures
            bank@ == self.bank(category),
    {
        match category {
            SoundCategory::WhipOnly => self.whip_sounds.as_slice(),
            SoundCategory::Escalated => self.escalated_sounds.as_slice(),
        }
    }

    /// Picks a random sample of the category: none when its bank is empty,
    /// otherwise one of the bank's samples.
    pub fn pick_sample(&self, category: SoundCategory) -> (pick: Option<&'static [u8]>)
        ensures
            pick is None <==> self.bank(category).len() == 0,
            pick matches Some(s) ==> self.bank(category).contains(s),
    {
        pick_from(self.bank_for(category))
    }

    /// Plays a random sample of the category, if its bank has any: exactly
    /// one sample of the bank is handed to the audio thread behind the
    /// player's channel. It does not wait for the playback, and when the audio
    /// thread has ended the sample is dropped.
    pub fn play_from(&mut self, category: SoundCategory)
        ensures
            final(self).whip_sounds() == old(self).whip_sounds(),
            final(self).escalated_sounds() == old(self).escalated_sounds(),
            old(self).bank(category).len() == 0 ==> final(self).played() == old(self).played(),
            old(self).bank(category).len() > 0 ==> exists|s: &'static [u8]|
                old(self).bank(category).contains(s) && final(self).played() == old(
                    self,
                ).played().push(s@),
    {
        if let Some(sample) = self.pick_sample(category) {
            offer_sample(&mut self.sender, sample);
            assert(old(self).bank(category).contains(sample));
            assert(self.played() == old(self).played().push(sample@));
        }
    }
}

} // verus!
