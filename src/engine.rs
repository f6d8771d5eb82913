use vstd::prelude::*;

verus! {

/// Volume is kept in tenths: 0 is silent, this is full.
pub const FULL_VOLUME: u8 = 10;

/// An operation on the audio output sink, for the caller to perform.
#[derive(Debug, Clone, Copy, PartialEq, Eq, Structural)]
pub enum SinkAction {
    /// Halt playback and drop every stream handed to the sink.
    Stop,
    /// Decode the catalog track at this index and append it to the sink.
    Append(usize),
    /// Pause playback.
    Pause,
    /// Resume playback.
    Play,
    /// Set the sink's volume, in tenths of full volume.
    SetVolume(u8),
}

/// Whether the sink is silent, sounding, or held.
#[derive(Debug, Clone, Copy, PartialEq, Eq, Structural)]
pub enum PlaybackState {
    Stopped,
    Playing,
    Paused,
}

/// What the engine knows of its sink.
pub ghost struct EngineView {
    pub paused: bool,
    /// In tenths of full volume.
    pub volume: nat,
    /// Catalog indices of the streams handed to the sink since it was last stopped.
    pub submitted: Seq<usize>,
}

/// The playback engine: the one owner of the audio sink's state.
pub struct Engine {
    paused: bool,
    volume: u8,
    submitted: Vec<usize>,
}

pub open spec fn state_of(e: EngineView) -> PlaybackState {
    if e.submitted.len() == 0 {
        PlaybackState::Stopped
    } else if e.paused {
        PlaybackState::Paused
    } else {
        PlaybackState::Playing
    }
}

/// `x` clamped to the volume range.
pub open spec fn clamp_volume(x: int) -> nat {
    if x < 0 {
        0
    } else if x > FULL_VOLUME as int {
        FULL_VOLUME as nat
    } else {
        x as nat
    }
}

pub open spec fn toggled(e: EngineView) -> EngineView {
    EngineView { paused: !e.paused, ..e }
}

pub open spec fn with_volume_step(e: EngineView, delta: int) -> EngineView {
    EngineView { volume: clamp_volume(e.volume + delta), ..e }
}

pub open spec fn stopped(e: EngineView) -> EngineView {
    EngineView { submitted: Seq::empty(), ..e }
}

/// The engine after `tracks` replaced whatever was playing: they play at once, even
/// where playback had been paused.
pub open spec fn replaced(e: EngineView, tracks: Seq<usize>) -> EngineView {
    EngineView { paused: false, submitted: tracks, ..e }
}

pub open spec fn append_actions(tracks: Seq<usize>) -> Seq<SinkAction> {
    tracks.map_values(|i: usize| SinkAction::Append(i))
}

/// The sink operations that stop playback, hand over `tracks` in order and start
/// playing.
pub open spec fn replace_actions(tracks: Seq<usize>) -> Seq<SinkAction> {
    seq![SinkAction::Stop] + append_actions(tracks) + seq![SinkAction::Play]
}

impl View for Engine {
    type V = EngineView;

    closed spec fn view(&self) -> EngineView {
        EngineView { paused: self.paused, volume: self.volume as nat, submitted: self.submitted@ }
    }
}

impl Engine {
    pub closed spec fn wf(&self) -> bool {
        self.volume <= FULL_VOLUME
    }

    /// A fresh sink: nothing submitted, not paused, at full volume.
    pub fn new() -> (r: Engine)
        ensures
            r.wf(),
            r@ == (EngineView { paused: false, volume: FULL_VOLUME as nat, submitted: Seq::empty() }),
    {
        Engine { paused: false, volume: FULL_VOLUME, submitted: Vec::new() }
    }

    pub proof fn lemma_wf(&self)
        requires
            self.wf(),
        ensures
            self@.volume <= FULL_VOLUME,
    {
    }

    pub fn is_paused(&self) -> (r: bool)
        ensures
            r == self@.paused,
    {
        self.paused
    }

    /// Current volume, in tenths of full volume.
    pub fn volume(&self) -> (r: u8)
        ensures
            r as nat == self@.volume,
    {
        self.volume
    }

    pub fn playback_state(&self) -> (r: PlaybackState)
        ensures
            r == state_of(self@),
    {
        if self.submitted.len() == 0 {
            PlaybackState::Stopped
        } else if self.paused {
            PlaybackState::Paused
        } else {
            PlaybackState::Playing
        }
    }

    /// Resume if paused, pause otherwise.
    pub fn toggle_pause(&mut self, out: &mut Vec<SinkAction>)
        requires
            old(self).wf(),
        ensures
            final(self).wf(),
            final(self)@ == toggled(old(self)@),
            final(out)@ == old(out)@.push(
                if old(self)@.paused { SinkAction::Play } else { SinkAction::Pause },
            ),
    {
        if self.paused {
            self.paused = false;
            out.push(SinkAction::Play);
        } else {
            self.paused = true;
            out.push(SinkAction::Pause);
        }
    }

    /// Move the volume by `delta` tenths, clamped to the range from silent to full.
    pub fn adjust_volume(&mut self, delta: i8, out: &mut Vec<SinkAction>)
        requires
            old(self).wf(),
        ensures
            final(self).wf(),
            final(self)@ == with_volume_step(old(self)@, delta as int),
            final(out)@ == old(out)@.push(SinkAction::SetVolume(final(self)@.volume as u8)),
    {
        let sum: i16 = self.volume as i16 + delta as i16;
        let v: u8 = if sum < 0 {
            0
        } else if sum > FULL_VOLUME as i16 {
            FULL_VOLUME
        } else {
            sum as u8
        };
        self.volume = v;
        out.push(SinkAction::SetVolume(v));
    }

    /// Halt playback and drop everything handed to the sink.
    pub fn stop(&mut self, out: &mut Vec<SinkAction>)
        requires
            old(self).wf(),
        ensures
            final(self).wf(),
            final(self)@ == stopped(old(self)@),
            state_of(final(self)@) == PlaybackState::Stopped,
            final(out)@ == old(out)@.push(SinkAction::Stop),
    {
        self.submitted.clear();
        out.push(SinkAction::Stop);
        assert(self.submitted@ =~= Seq::<usize>::empty());
    }

    /// Stop, hand `tracks` to the sink in order and start playing; the sink plays them
    /// back to back.
    pub fn replace_and_play(&mut self, tracks: &Vec<usize>, out: &mut Vec<SinkAction>)
        requires
            old(self).wf(),
        ensures
            final(self).wf(),
            final(self)@ == replaced(old(self)@, tracks@),
            final(out)@ == old(out)@ + replace_actions(tracks@),
    {
        self.stop(out);
        let ghost base = old(out)@.push(SinkAction::Stop);
        let mut k: usize = 0;
        assert(tracks@.take(0) =~= Seq::<usize>::empty());
        assert(base + append_actions(tracks@.take(0)) =~= base);
        while k < tracks.len()
            invariant
                self.wf(),
                self@ == (EngineView { submitted: tracks@.take(k as int), ..old(self)@ }),
                out@ == base + append_actions(tracks@.take(k as int)),
                k <= tracks@.len(),
            decreases tracks@.len() - k,
        {
            let i: usize = tracks[k];
            self.submitted.push(i);
            out.push(SinkAction::Append(i));
            k = k + 1;
            assert(tracks@.take(k as int) =~= tracks@.take(k - 1).push(i));
            assert(append_actions(tracks@.take(k as int)) =~= append_actions(
                tracks@.take(k - 1),
            ).push(SinkAction::Append(i)));
            assert(self.submitted@ =~= tracks@.take(k as int));
        }
        assert(tracks@.take(k as int) =~= tracks@);
        self.paused = false;
        out.push(SinkAction::Play);
        assert(out@ =~= old(out)@ + replace_actions(tracks@));
    }
}

/// Two presses of pause in a row leave the engine as it was.
pub proof fn lemma_toggle_twice(e: EngineView)
    ensures
        toggled(toggled(e)) == e,
{
}

/// The volume after `n` adjustments by `delta`, starting from `v`.
pub open spec fn volume_after(v: nat, delta: int, n: nat) -> nat
    decreases n,
{
    if n == 0 {
        v
    } else {
        clamp_volume(volume_after(v, delta, (n - 1) as nat) + delta)
    }
}

/// Enough raises settle at full volume, and enough lowerings at silence; further
/// steps in the same direction change nothing.
pub proof fn lemma_volume_settles(v: nat, n: nat)
    requires
        v <= FULL_VOLUME,
        n >= FULL_VOLUME,
    ensures
        volume_after(v, 1, n) == FULL_VOLUME as nat,
        volume_after(v, -1, n) == 0,
{
    lemma_volume_progress(v, n);
}

proof fn lemma_volume_progress(v: nat, n: nat)
    requires
        v <= FULL_VOLUME,
    ensures
        volume_after(v, 1, n) == if v + n >= FULL_VOLUME { FULL_VOLUME as nat } else { v + n },
        volume_after(v, -1, n) == if n >= v { 0 } else { (v - n) as nat },
    decreases n,
{
    if n > 0 {
        lemma_volume_progress(v, (n - 1) as nat);
    }
}

} // verus!
