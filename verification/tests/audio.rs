use hallways::audio::speaker::{next, SourceCursor, SpeakerState, Step};

#[test]
fn speaker_controls() {
    let mut s = SpeakerState::create();
    assert_eq!(s, SpeakerState { paused: true, dropped: false, generation: 0 });
    s.play();
    assert!(!s.paused);
    s.reset();
    assert_eq!(s, SpeakerState { paused: true, dropped: false, generation: 1 });
    let mut w = SpeakerState { paused: false, dropped: false, generation: u64::MAX };
    w.reset();
    assert_eq!(w.generation, 0);
    w.drop_speaker();
    assert!(w.dropped);
}

#[test]
fn source_plays_then_stays_silent() {
    let mut s = SpeakerState::create();
    let mut c = SourceCursor { pos: 0, repeat: false, generation: 0, len: 2 };
    assert_eq!(next(&mut c, &s), Step::Silence);
    s.play();
    assert_eq!(next(&mut c, &s), Step::Sample(0));
    assert_eq!(next(&mut c, &s), Step::Sample(1));
    assert_eq!(next(&mut c, &s), Step::Silence);
    assert_eq!(c.pos, 2);
    s.reset();
    s.play();
    assert_eq!(next(&mut c, &s), Step::Sample(0));
    assert_eq!(c.generation, 1);
    s.drop_speaker();
    assert_eq!(next(&mut c, &s), Step::End);
}

#[test]
fn repeating_source_loops() {
    let s = SpeakerState { paused: false, dropped: false, generation: 0 };
    let mut c = SourceCursor { pos: 0, repeat: true, generation: 0, len: 2 };
    let steps: Vec<Step> = (0..5).map(|_| next(&mut c, &s)).collect();
    assert_eq!(steps, vec![Step::Sample(0), Step::Sample(1), Step::Sample(0), Step::Sample(1), Step::Sample(0)]);
}
