use sampler::processing::{AdsrStage, LinearAdsr};

#[test]
fn a_new_envelope_is_inactive() {
    let mut adsr = LinearAdsr::new();
    assert_eq!(adsr.is_active(), false);
    assert_eq!(adsr.stage(), None);
    adsr.next_sample(true);
    assert_eq!(adsr.stage(), None);
    adsr.next_sample(false);
    assert_eq!(adsr.stage(), None);
}

#[test]
fn the_attack_holds_until_note_off() {
    let mut adsr = LinearAdsr::new();
    adsr.note_on();
    assert_eq!(adsr.stage(), Some(AdsrStage::Attack));
    for _ in 0..1000 {
        adsr.next_sample(false);
    }
    assert_eq!(adsr.is_active(), true);
    adsr.next_sample(true);
    assert_eq!(adsr.stage(), Some(AdsrStage::Attack));
}

#[test]
fn the_release_ends_when_spent() {
    let mut adsr = LinearAdsr::new();
    adsr.note_on();
    adsr.note_off();
    assert_eq!(adsr.stage(), Some(AdsrStage::Release));
    let mut steps = 0;
    while steps < 500 {
        adsr.next_sample(false);
        steps += 1
    }
    assert_eq!(adsr.is_active(), true);
    adsr.next_sample(true);
    assert_eq!(adsr.is_active(), false);
    assert_eq!(adsr.stage(), None);
}

#[test]
fn note_off_releases_an_inactive_envelope_too() {
    let mut adsr = LinearAdsr::new();
    adsr.note_off();
    assert_eq!(adsr.stage(), Some(AdsrStage::Release));
    adsr.note_on();
    assert_eq!(adsr.stage(), Some(AdsrStage::Attack));
    adsr.reset();
    assert_eq!(adsr.stage(), None);
    assert_eq!(adsr.is_active(), false);
}
