use std::sync::mpsc;
use whipclaude::audio::{pick_from, AudioPlayer, SoundCategory};

static CRACK_A: &[u8] = b"crack a";
static CRACK_B: &[u8] = b"crack b";
static YOWL: &[u8] = b"yowl";

#[test]
fn bank_for_whip_returns_whip_sounds() {
    let (tx, _rx) = mpsc::channel();
    let player = AudioPlayer::with_sounds(tx, vec![CRACK_A, CRACK_B], vec![YOWL]);
    let bank = player.bank_for(SoundCategory::WhipOnly);
    assert_eq!(bank.len(), 2);
    assert_eq!(bank[0], CRACK_A);
    assert_eq!(bank[1], CRACK_B);
}

#[test]
fn play_from_sends_a_sample_of_the_bank() {
    let (tx, rx) = mpsc::channel();
    let mut player = AudioPlayer::with_sounds(tx, vec![CRACK_A, CRACK_B], vec![YOWL]);
    for _ in 0..20 {
        player.play_from(SoundCategory::WhipOnly);
        let got = rx.try_recv().expect("a sample was sent");
        assert!(got == CRACK_A || got == CRACK_B);
    }
}

#[test]
fn empty_bank_plays_nothing() {
    let (tx, rx) = mpsc::channel();
    let mut player = AudioPlayer::with_sounds(tx, vec![], vec![]);
    assert!(player.pick_sample(SoundCategory::WhipOnly).is_none());
    player.play_from(SoundCategory::WhipOnly);
    assert!(rx.try_recv().is_err());
}

#[test]
fn pick_from_stays_in_bank() {
    assert!(pick_from(&[]).is_none());
    assert_eq!(pick_from(&[CRACK_A]), Some(CRACK_A));
    for _ in 0..20 {
        let got = pick_from(&[CRACK_A, CRACK_B]).unwrap();
        assert!(got == CRACK_A || got == CRACK_B);
    }
}

#[test]
fn play_from_with_receiver_gone_does_not_panic() {
    let (tx, rx) = mpsc::channel();
    drop(rx);
    let mut player = AudioPlayer::with_sounds(tx, vec![CRACK_A], vec![YOWL]);
    player.play_from(SoundCategory::WhipOnly);
}

#[test]
fn escalated_bank_plays_escalated_sounds() {
    let (tx, rx) = mpsc::channel();
    let mut player = AudioPlayer::with_sounds(tx, vec![CRACK_A], vec![YOWL]);
    assert_eq!(player.bank_for(SoundCategory::Escalated), &[YOWL][..]);
    player.play_from(SoundCategory::Escalated);
    assert_eq!(rx.try_recv().unwrap(), YOWL);
    player.play_from(SoundCategory::WhipOnly);
    assert_eq!(rx.try_recv().unwrap(), CRACK_A);
}
