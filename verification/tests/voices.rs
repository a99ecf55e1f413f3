use synth_sim::voices::Voices;

fn pool(n: usize) -> Voices<u8> {
    Voices::new(vec![0u8; n])
}

#[test]
fn first_notes_take_free_voices_in_order() {
    let mut p = pool(3);
    *p.voice_on(60) = 1;
    *p.voice_on(62) = 2;
    *p.voice_on(64) = 3;
    assert_eq!(p.voices, vec![1, 2, 3]);
}

#[test]
fn full_pool_steals_oldest_voice() {
    let mut p = pool(3);
    *p.voice_on(60) = 1;
    *p.voice_on(62) = 2;
    *p.voice_on(64) = 3;
    *p.voice_on(65) = 4;
    assert_eq!(p.voices, vec![4, 2, 3]);
    // the stolen note no longer sounds
    assert!(p.voice_off(60).is_none());
    // the next steal takes the next oldest
    *p.voice_on(67) = 5;
    assert_eq!(p.voices, vec![4, 5, 3]);
}

#[test]
fn retriggered_note_keeps_voice_and_becomes_newest() {
    let mut p = pool(2);
    *p.voice_on(60) = 1;
    *p.voice_on(62) = 2;
    *p.voice_on(60) = 7;
    assert_eq!(p.voices, vec![7, 2]);
    // 62 is now the oldest, so it is stolen
    *p.voice_on(64) = 9;
    assert_eq!(p.voices, vec![7, 9]);
}

#[test]
fn voice_off_frees_the_voice_it_played() {
    let mut p = pool(3);
    *p.voice_on(60) = 1;
    *p.voice_on(62) = 2;
    match p.voice_off(60) {
        Some(v) => *v = 8,
        None => panic!("note 60 was sounding"),
    }
    assert_eq!(p.voices, vec![8, 2, 0]);
    // voice 2 was free before voice 0 came back, so it comes first
    *p.voice_on(70) = 3;
    assert_eq!(p.voices, vec![8, 2, 3]);
    *p.voice_on(71) = 4;
    assert_eq!(p.voices, vec![4, 2, 3]);
}

#[test]
fn voice_off_of_silent_note_is_none() {
    let mut p = pool(2);
    assert!(p.voice_off(60).is_none());
    *p.voice_on(61) = 1;
    assert!(p.voice_off(60).is_none());
    assert_eq!(p.voices, vec![1, 0]);
}

#[test]
fn voice_on_then_off_returns_same_voice() {
    let mut p = pool(4);
    *p.voice_on(10) = 1;
    *p.voice_on(20) = 2;
    let v = p.voice_on(30);
    *v = 3;
    let off = p.voice_off(30).map(|v| *v);
    assert_eq!(off, Some(3));
}

#[test]
fn single_voice_pool_is_monophonic() {
    let mut p = pool(1);
    *p.voice_on(60) = 1;
    *p.voice_on(61) = 2;
    assert_eq!(p.voices, vec![2]);
    assert!(p.voice_off(60).is_none());
    assert_eq!(p.voice_off(61).map(|v| *v), Some(2));
}
