use vstd::prelude::*;

verus! {

/// The playback controls shared by a speaker and its sample source: paused,
/// whether the speaker is gone, and a generation that a reset advances so the
/// source starts over.
#[derive(Clone, Copy, Debug, PartialEq, Eq, Structural)]
pub struct SpeakerState {
    pub paused: bool,
    pub dropped: bool,
    pub generation: u64,
}

/// The generation after a reset (wrapping around after the largest value).
pub open spec fn next_generation(g: u64) -> u64 {
    if g == u64::MAX { 0 } else { (g + 1) as u64 }
}

impl SpeakerState {
    /// A new speaker: paused, at generation 0.
    pub fn create() -> (res: Self)
        ensures
            res == (SpeakerState { paused: true, dropped: false, generation: 0 }),
    {
        SpeakerState { paused: true, dropped: false, generation: 0 }
    }

    pub fn play(&mut self)
        ensures
            *final(self) == (SpeakerState { paused: false, ..*old(self) }),
    {
        self.paused = false;
    }

    /// Rewinds the sound to its start and pauses it.
    pub fn reset(&mut self)
        ensures
            *final(self) == (SpeakerState {
                paused: true,
                dropped: old(self).dropped,
                generation: next_generation(old(self).generation),
            }),
    {
        self.generation = self.generation.wrapping_add(1);
        self.paused = true;
    }

    /// The speaker is gone: its source ends.
    pub fn drop_speaker(&mut self)
        ensures
            *final(self) == (SpeakerState { dropped: true, ..*old(self) }),
    {
        self.dropped = true;
    }
}

/// Where a speaker's sample source stands: the next sample, whether the sound
/// repeats, the generation it has caught up with, and how many samples the
/// sound has.
#[derive(Clone, Copy, Debug, PartialEq, Eq, Structural)]
pub struct SourceCursor {
    pub pos: usize,
    pub repeat: bool,
    pub generation: u64,
    pub len: usize,
}

/// What the source yields next.
#[derive(Clone, Copy, Debug, PartialEq, Eq, Structural)]
pub enum Step {
    /// The source is finished.
    End,
    /// A silent sample.
    Silence,
    /// The sound's sample at this index (scaled by the volume).
    Sample(usize),
}

/// The next step of a source: nothing once the speaker is gone; otherwise the
/// source first starts over when the speaker was reset; a paused speaker yields
/// silence; past the end a sound that does not repeat yields silence and one
/// that repeats starts over; otherwise the next sample.
pub open spec fn next_spec(cursor: SourceCursor, state: SpeakerState) -> (SourceCursor, Step) {
    if state.dropped {
        (cursor, Step::End)
    } else {
        let pos0: usize = if state.generation != cursor.generation { 0 } else { cursor.pos };
        let c0 = SourceCursor { pos: pos0, generation: state.generation, ..cursor };
        if state.paused {
            (c0, Step::Silence)
        } else if pos0 >= cursor.len && !cursor.repeat {
            (c0, Step::Silence)
        } else {
            let p: usize = if pos0 >= cursor.len { 0 } else { pos0 };
            (SourceCursor { pos: (p + 1) as usize, ..c0 }, Step::Sample(p))
        }
    }
}

/// Advances a speaker's source by one sample, as `next_spec` describes. A
/// repeating sound with no samples cannot be played.
pub fn next(cursor: &mut SourceCursor, state: &SpeakerState) -> (res: Step)
    requires
        !(!state.dropped && !state.paused && old(cursor).repeat && old(cursor).len == 0),
    ensures
        (*final(cursor), res) == next_spec(*old(cursor), *state),
        res matches Step::Sample(i) ==> i < old(cursor).len,
{
    if state.dropped {
        return Step::End;
    }
    if state.generation != cursor.generation {
        cursor.pos = 0;
        cursor.generation = state.generation;
    }
    if state.paused {
        return Step::Silence;
    }
    if cursor.pos >= cursor.len {
        if !cursor.repeat {
            return Step::Silence;
        }
        cursor.pos = 0;
    }
    let sample = cursor.pos;
    cursor.pos = cursor.pos + 1;
    Step::Sample(sample)
}

/// Replay law: after a reset and play, a source that had caught up with its
/// speaker yields the sound's first sample next, whatever position it was at.
pub proof fn lemma_reset_replays(cursor: SourceCursor, state: SpeakerState)
    requires
        cursor.generation == state.generation,
        !state.dropped,
        cursor.len > 0,
    ensures
        next_spec(
            cursor,
            SpeakerState { paused: false, dropped: false, generation: next_generation(state.generation) },
        ).1 == Step::Sample(0),
{
}

/// A source whose speaker is gone stays finished and never moves.
pub proof fn lemma_dropped_ends(cursor: SourceCursor, state: SpeakerState)
    requires
        state.dropped,
    ensures
        next_spec(cursor, state) == (cursor, Step::End),
{
}

} // verus!
