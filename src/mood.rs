//! The soundtrack: which music plays, and the crossfade on a mood change.
//!
//! Volumes are linear levels in thousandths and durations in milliseconds.
use vstd::prelude::*;
use crate::app::{App, AppView};
use crate::entity::{next_handle, Entity};
use crate::states::{GameStateView, MoodType};
use rand::seq::SliceRandom;

verus! {

/// The length of a fade in or out, in milliseconds.
pub const FADE_TIME: u32 = 2000;

/// The volume ramp a music track is on.
#[derive(Clone, Copy, Debug, PartialEq, Eq, Hash, Structural)]
pub enum Fade {
    /// Playing steadily.
    Steady,
    /// Ramping up from silence to its target level.
    In,
    /// Ramping down to silence, after which it is despawned.
    Out,
}

/// A looping background-music playback entity.
#[derive(Clone, Copy, Debug, PartialEq, Eq, Hash, Structural)]
pub struct MusicTrack {
    pub entity: Entity,
    /// The audio asset being played.
    pub handle: u64,
    pub volume: u32,
    /// The configured music level this track plays at once faded in.
    pub target: u32,
    pub paused: bool,
    pub fade: Fade,
}

/// Music and effect levels from the user's settings.
#[derive(Clone, Copy, Debug, PartialEq, Eq, Hash, Structural)]
pub struct VolumeSettings {
    pub music: u32,
    pub sfx: u32,
}

/// The levels the music and effect buses currently play at.
#[derive(Clone, Copy, Debug, PartialEq, Eq, Hash, Structural)]
pub struct Buses {
    pub music: u32,
    pub sfx: u32,
}

/// Handles of the loaded audio assets.
#[derive(Debug)]
pub struct AudioSources {
    pub btn_hover: u64,
    pub btn_press: u64,
    pub steps: Vec<u64>,
    /// Tracks that can play while exploring.
    pub explore: Vec<u64>,
    /// Tracks that can play in combat.
    pub combat: Vec<u64>,
}

pub struct AudioSourcesView {
    pub btn_hover: u64,
    pub btn_press: u64,
    pub steps: Seq<u64>,
    pub explore: Seq<u64>,
    pub combat: Seq<u64>,
}

impl View for AudioSources {
    type V = AudioSourcesView;

    open spec fn view(&self) -> AudioSourcesView {
        AudioSourcesView {
            btn_hover: self.btn_hover,
            btn_press: self.btn_press,
            steps: self.steps@,
            explore: self.explore@,
            combat: self.combat@,
        }
    }
}

impl AudioSourcesView {
    /// The tracks that can play in `mood`.
    pub open spec fn pool(self, mood: MoodType) -> Seq<u64> {
        match mood {
            MoodType::Exploration => self.explore,
            MoodType::Combat => self.combat,
        }
    }

    /// Every mood has at least one track.
    pub open spec fn wf(self) -> bool {
        self.explore.len() > 0 && self.combat.len() > 0
    }
}

} // verus!

verus! {

/// The level a fade ramps across: the track's target, or its current
/// volume if that is louder.
pub open spec fn ramp_level(t: MusicTrack) -> int {
    if t.volume > t.target { t.volume as int } else { t.target as int }
}

/// How far a fade moves a track's volume in `dt` milliseconds: its whole
/// ramp level over one fade time, rounded up, so that any tick with time
/// in it moves a fading track and every fade ends within one fade time.
pub open spec fn ramp_step(t: MusicTrack, dt: u32) -> int {
    (ramp_level(t) * dt + FADE_TIME - 1) / (FADE_TIME as int)
}

/// The tracks of `s`, each tagged to fade out.
pub open spec fn fading_out(s: Seq<MusicTrack>) -> Seq<MusicTrack> {
    s.map_values(|t: MusicTrack| MusicTrack { fade: Fade::Out, ..t })
}

/// The tracks of `s`, each paused.
pub open spec fn paused_all(s: Seq<MusicTrack>) -> Seq<MusicTrack> {
    s.map_values(|t: MusicTrack| MusicTrack { paused: true, ..t })
}

/// The tracks of `s` after `dt` milliseconds of fading: a fading-in track
/// gains one step and becomes steady at its target; a fading-out track
/// loses one step and is despawned once silent; steady tracks are kept.
pub open spec fn after_fades(s: Seq<MusicTrack>, dt: u32) -> Seq<MusicTrack>
    decreases s.len(),
{
    if s.len() == 0 {
        s
    } else {
        let rest = after_fades(s.drop_last(), dt);
        let t = s.last();
        let step = ramp_step(t, dt);
        match t.fade {
            Fade::Steady => rest.push(t),
            Fade::In => if t.volume + step >= t.target {
                rest.push(MusicTrack { volume: t.target, fade: Fade::Steady, ..t })
            } else {
                rest.push(MusicTrack { volume: (t.volume + step) as u32, ..t })
            },
            Fade::Out => if t.volume <= step {
                rest
            } else {
                rest.push(MusicTrack { volume: (t.volume - step) as u32, ..t })
            },
        }
    }
}

impl AppView {
    /// A new steady looping track playing `track` at the music level.
    pub open spec fn with_music_started(self, track: u64) -> AppView {
        AppView {
            music: self.music.push(
                MusicTrack {
                    entity: self.fresh(),
                    handle: track,
                    volume: self.settings.music,
                    target: self.settings.music,
                    paused: false,
                    fade: Fade::Steady,
                },
            ),
            next_entity: next_handle(self.next_entity),
            ..self
        }
    }

    /// Every music track paused, none removed.
    pub open spec fn with_music_stopped(self) -> AppView {
        AppView { music: paused_all(self.music), ..self }
    }

    /// The mood set to `mood`; every playing track fades out, and `track`
    /// starts looping from silence, fading in to the music level.
    pub open spec fn after_mood_change(self, mood: MoodType, track: u64) -> AppView {
        AppView {
            state: GameStateView { current_mood: mood, ..self.state },
            music: fading_out(self.music).push(
                MusicTrack {
                    entity: self.fresh(),
                    handle: track,
                    volume: 0,
                    target: self.settings.music,
                    paused: false,
                    fade: Fade::In,
                },
            ),
            next_entity: next_handle(self.next_entity),
            ..self
        }
    }

    /// The music after `dt` milliseconds of fading.
    pub open spec fn after_fade_tick(self, dt: u32) -> AppView {
        AppView { music: after_fades(self.music, dt), ..self }
    }
}

/// Relies on rand's `SliceRandom::choose` with the thread-local generator:
/// `None` for an empty slice, otherwise one of its elements.
#[verifier::external_body]
fn choose_track(tracks: &Vec<u64>) -> (r: Option<u64>)
    ensures
        tracks@.len() == 0 <==> r is None,
        r matches Some(t) ==> tracks@.contains(t),
{
    tracks.choose(&mut rand::thread_rng()).copied()
}

fn fade_step(t: MusicTrack, dt: u32) -> (r: u64)
    ensures
        r == ramp_step(t, dt),
        r <= 0x0100_0000_0000_0000,
{
    let level: u64 = if t.volume > t.target { t.volume as u64 } else { t.target as u64 };
    proof {
        let (a, b) = (level as int, dt as int);
        assert(0 <= a * b <= 0xFFFF_FFFF * 0xFFFF_FFFF) by (nonlinear_arith)
            requires
                0 <= a <= 0xFFFF_FFFF,
                0 <= b <= 0xFFFF_FFFF,
        ;
    }
    (level * dt as u64 + (FADE_TIME - 1) as u64) / FADE_TIME as u64
}

/// A track picked at random from the pool of `mood`.
pub(crate) fn pick(sources: &AudioSources, mood: MoodType) -> (r: u64)
    requires
        sources@.wf(),
    ensures
        sources@.pool(mood).contains(r),
{
    let chosen = match mood {
        MoodType::Exploration => choose_track(&sources.explore),
        MoodType::Combat => choose_track(&sources.combat),
    };
    chosen.unwrap()
}

fn tagged_out(t: MusicTrack) -> (r: MusicTrack)
    ensures
        r == (MusicTrack { fade: Fade::Out, ..t }),
{
    MusicTrack { fade: Fade::Out, ..t }
}

fn tagged_paused(t: MusicTrack) -> (r: MusicTrack)
    ensures
        r == (MusicTrack { paused: true, ..t }),
{
    MusicTrack { paused: true, ..t }
}

impl App {
    /// Starts `track` looping at the music level.
    pub fn start_soundtrack_with(&mut self, track: u64)
        ensures
            final(self)@ == old(self)@.with_music_started(track),
    {
        let entity = self.spawn();
        let level = self.settings.music;
        self.music.push(
            MusicTrack { entity, handle: track, volume: level, target: level, paused: false, fade: Fade::Steady },
        );
    }

    /// On entering gameplay, starts a track picked at random from the
    /// exploration pool.
    pub fn start_soundtrack(&mut self)
        requires
            old(self)@.sources.wf(),
        ensures
            exists|t: u64|
                old(self)@.sources.explore.contains(t) && final(self)@ == old(self)@.with_music_started(t),
    {
        let t = pick(&self.sources, MoodType::Exploration);
        self.start_soundtrack_with(t);
    }

    /// On leaving gameplay, pauses every music track without despawning it.
    pub fn stop_soundtrack(&mut self)
        ensures
            final(self)@ == old(self)@.with_music_stopped(),
    {
        let mut i: usize = 0;
        while i < self.music.len()
            invariant
                i <= self.music@.len() == old(self).music@.len(),
                forall|j: int| 0 <= j < i ==> self.music@[j] == (MusicTrack { paused: true, ..old(self).music@[j] }),
                forall|j: int| i <= j < self.music@.len() ==> self.music@[j] == old(self).music@[j],
                self@ == (AppView { music: self.music@, ..old(self)@ }),
            decreases self.music@.len() - i,
        {
            let t = self.music[i];
            self.music.set(i, tagged_paused(t));
            i = i + 1;
        }
        assert(self.music@ =~= paused_all(old(self).music@));
    }

    /// Switches to `mood` with `track` as its new music: every playing track
    /// fades out and `track` fades in from silence.
    pub fn change_mood_to(&mut self, mood: MoodType, track: u64)
        ensures
            final(self)@ == old(self)@.after_mood_change(mood, track),
    {
        let mut i: usize = 0;
        while i < self.music.len()
            invariant
                i <= self.music@.len() == old(self).music@.len(),
                forall|j: int| 0 <= j < i ==> self.music@[j] == (MusicTrack { fade: Fade::Out, ..old(self).music@[j] }),
                forall|j: int| i <= j < self.music@.len() ==> self.music@[j] == old(self).music@[j],
                self@ == (AppView { music: self.music@, ..old(self)@ }),
            decreases self.music@.len() - i,
        {
            let t = self.music[i];
            self.music.set(i, tagged_out(t));
            i = i + 1;
        }
        assert(self.music@ =~= fading_out(old(self).music@));
        let entity = self.spawn();
        let level = self.settings.music;
        self.music.push(MusicTrack { entity, handle: track, volume: 0, target: level, paused: false, fade: Fade::In });
        self.state.current_mood = mood;
    }

    /// Switches to `mood`, with a track picked at random from its pool.
    pub fn change_mood(&mut self, mood: MoodType)
        requires
            old(self)@.sources.wf(),
        ensures
            exists|t: u64|
                old(self)@.sources.pool(mood).contains(t) && final(self)@ == old(self)@.after_mood_change(mood, t),
    {
        let t = pick(&self.sources, mood);
        self.change_mood_to(mood, t);
    }

    /// Advances every fade by `dt` milliseconds, despawning tracks that
    /// have faded out.
    pub fn tick_fades(&mut self, dt: u32)
        ensures
            final(self)@ == old(self)@.after_fade_tick(dt),
    {
        let mut kept: Vec<MusicTrack> = Vec::new();
        let mut i: usize = 0;
        while i < self.music.len()
            invariant
                i <= self.music@.len(),
                kept@ == after_fades(self.music@.take(i as int), dt),
            decreases self.music@.len() - i,
        {
            let t = self.music[i];
            assert(self.music@.take(i + 1).drop_last() =~= self.music@.take(i as int));
            let step = fade_step(t, dt);
            match t.fade {
                Fade::Steady => kept.push(t),
                Fade::In => {
                    if t.volume as u64 + step >= t.target as u64 {
                        kept.push(MusicTrack { volume: t.target, fade: Fade::Steady, ..t });
                    } else {
                        kept.push(MusicTrack { volume: (t.volume as u64 + step) as u32, ..t });
                    }
                },
                Fade::Out => {
                    if (t.volume as u64) > step {
                        kept.push(MusicTrack { volume: (t.volume as u64 - step) as u32, ..t });
                    }
                },
            }
            i = i + 1;
        }
        assert(self.music@.take(self.music@.len() as int) =~= self.music@);
        self.music = kept;
    }
}

} // verus!

verus! {

proof fn lemma_full_step(t: MusicTrack, dt: u32)
    requires
        dt >= FADE_TIME,
    ensures
        ramp_step(t, dt) >= t.target,
        ramp_step(t, dt) >= t.volume,
{
    let (a, b) = (ramp_level(t), dt as int);
    assert((a * b + 1999) / 2000 >= a) by (nonlinear_arith)
        requires
            a >= 0,
            b >= 2000,
    ;
}

/// Any tick with time in it moves a fading track with anything to ramp
/// across: a fade never stalls, however short the frames.
pub proof fn lemma_fade_never_stalls(t: MusicTrack, dt: u32)
    requires
        dt > 0,
        ramp_level(t) > 0,
    ensures
        ramp_step(t, dt) >= 1,
{
    let (a, b) = (ramp_level(t), dt as int);
    assert((a * b + 1999) / 2000 >= 1) by (nonlinear_arith)
        requires
            a >= 1,
            b >= 1,
    ;
}

/// Tracks that are all fading out are all gone after a full fade time.
proof fn lemma_faded_out_tracks_vanish(s: Seq<MusicTrack>, dt: u32)
    requires
        dt >= FADE_TIME,
        forall|i: int| 0 <= i < s.len() ==> #[trigger] s[i].fade == Fade::Out,
    ensures
        after_fades(s, dt) == Seq::<MusicTrack>::empty(),
    decreases s.len(),
{
    if s.len() > 0 {
        let rest = s.drop_last();
        assert forall|i: int| 0 <= i < rest.len() implies #[trigger] rest[i].fade == Fade::Out by {
            assert(rest[i] == s[i]);
        }
        lemma_faded_out_tracks_vanish(rest, dt);
        assert(s.last() == s[s.len() - 1]);
        lemma_full_step(s.last(), dt);
    }
}

/// Once a mood change has fully faded, exactly one track plays: the new
/// one, steady at the music level; nothing is fading any more.
pub proof fn lemma_mood_change_settles(v: AppView, mood: MoodType, track: u64, dt: u32)
    requires
        dt >= FADE_TIME,
    ensures
        v.after_mood_change(mood, track).after_fade_tick(dt).music == seq![
            MusicTrack {
                entity: v.fresh(),
                handle: track,
                volume: v.settings.music,
                target: v.settings.music,
                paused: false,
                fade: Fade::Steady,
            },
        ],
{
    let out = fading_out(v.music);
    let new = MusicTrack {
        entity: v.fresh(),
        handle: track,
        volume: 0,
        target: v.settings.music,
        paused: false,
        fade: Fade::In,
    };
    let s = out.push(new);
    assert(s.drop_last() =~= out);
    assert(s.last() == new);
    assert forall|i: int| 0 <= i < out.len() implies #[trigger] out[i].fade == Fade::Out by {}
    lemma_faded_out_tracks_vanish(out, dt);
    lemma_full_step(new, dt);
    assert(Seq::<MusicTrack>::empty().push(
        MusicTrack { volume: new.target, fade: Fade::Steady, ..new },
    ) =~= seq![MusicTrack { volume: new.target, fade: Fade::Steady, ..new }]);
}

/// Going from exploration to combat and back, once both fades complete,
/// leaves exactly one steady looping track, from the exploration change,
/// and no track fading.
pub proof fn lemma_mood_round_trip_settles(v: AppView, combat: u64, explore: u64, dt: u32)
    requires
        dt >= FADE_TIME,
    ensures
        ({
            let w = v.after_mood_change(MoodType::Combat, combat).after_mood_change(
                MoodType::Exploration,
                explore,
            ).after_fade_tick(dt);
            &&& w.music.len() == 1
            &&& w.music[0].handle == explore
            &&& w.music[0].fade == Fade::Steady
            &&& !w.music[0].paused
            &&& w.state.current_mood == MoodType::Exploration
        }),
{
    let u = v.after_mood_change(MoodType::Combat, combat);
    lemma_mood_change_settles(u, MoodType::Exploration, explore, dt);
}

} // verus!
