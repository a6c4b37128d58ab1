use vstd::prelude::*;

use kira::sound::static_sound::StaticSoundData;
use kira::track::{TrackBuilder, TrackHandle, TrackPlaybackState};
use kira::{Decibels, ResourceLimitReached, Tween};

verus! {

/// The failure of an operation of the audio backend, with its message.
#[derive(Debug)]
pub enum AudioError {
    PlaySound(String),
}

impl AudioError {
    /// A human-readable description of the error.
    pub fn message(&self) -> (r: String)
        ensures
            r@ == "Failed to play sound: "@ + self.detail(),
    {
        match self {
            AudioError::PlaySound(m) => {
                let mut s = "Failed to play sound: ".to_owned();
                s.append(m.as_str());
                s
            },
        }
    }

    /// The backend's own words for the failure.
    pub open spec fn detail(&self) -> Seq<char> {
        match self {
            AudioError::PlaySound(m) => m@,
        }
    }
}

/// The top-level track under which a new track is attached.
#[derive(Debug, Clone, Copy, PartialEq, Eq, Structural)]
pub enum TrackType {
    Main,
    Bgm,
    Effect,
}


/// The playback state of a track, as the backend reports it.
#[derive(Debug, Clone, Copy, PartialEq, Eq, Structural)]
pub enum PlayState {
    /// The track is playing normally.
    Playing,
    /// The track is fading out; playback pauses when the fade ends.
    Pausing,
    /// Playback is paused.
    Paused,
    /// The track is paused and scheduled to resume later.
    WaitingToResume,
    /// The track is fading back in after a pause.
    Resuming,
}

#[verifier::external_type_specification]
#[verifier::external_body]
pub struct ExTrackHandle(TrackHandle);

#[verifier::external_type_specification]
#[verifier::external_body]
pub struct ExStaticSoundData(StaticSoundData);

#[verifier::external_type_specification]
#[verifier::external_body]
pub struct ExDecibels(Decibels);

#[verifier::external_type_specification]
#[verifier::external_body]
pub struct ExResourceLimitReached(ResourceLimitReached);

/// The message of a full track, as kira displays it.
pub open spec fn limit_reached_message() -> Seq<char> {
    "Could not add a resource because the maximum capacity for that resource has been reached"@
}

/// The message of a track that plays as many sounds as it can, as kira
/// displays it.
pub open spec fn sound_limit_message() -> Seq<char> {
    "Could not play a sound because the maximum number of sounds has been reached."@
}

/// A mixer track together with a ghost record of what was asked of it
/// through this value: the children attached under it, the sounds started
/// on it, the last volume set and the last pause or resume.
///
/// Only the operations below touch the handle. A track that this library
/// attached (`born_here`) started empty and playing, so the backend's live
/// counts on it never exceed the recorded ones; a track handed in from
/// outside may have had children and sounds before.
pub struct Track {
    handle: TrackHandle,
    born: Ghost<bool>,
    attached: Ghost<nat>,
    started: Ghost<nat>,
    volume: Ghost<Option<Decibels>>,
    request: Ghost<Option<PlayState>>,
}

impl Track {
    /// The track was attached by this library as an empty, playing track.
    pub closed spec fn born_here(&self) -> bool {
        self.born@
    }

    /// Takes over a track created elsewhere, with nothing recorded yet.
    pub fn adopt(handle: TrackHandle) -> (r: Track)
        ensures
            !r.born_here(),
            r.children() == 0,
            r.sounds_started() == 0,
            r.requested_volume() is None,
            r.requested_state() is None,
    {
        Track {
            handle,
            born: Ghost(false),
            attached: Ghost(0),
            started: Ghost(0),
            volume: Ghost(None),
            request: Ghost(None),
        }
    }

    /// The children attached under this track.
    pub closed spec fn children(&self) -> nat {
        self.attached@
    }

    /// The sounds started on this track.
    pub closed spec fn sounds_started(&self) -> nat {
        self.started@
    }

    /// The last volume set on this track, if any.
    pub closed spec fn requested_volume(&self) -> Option<Decibels> {
        self.volume@
    }

    /// The state that the last pause or resume asked for, if any.
    pub closed spec fn requested_state(&self) -> Option<PlayState> {
        self.request@
    }

    /// A track that the backend has just created: no children, no sounds,
    /// its initial volume, and playing.
    pub open spec fn is_fresh(&self) -> bool {
        &&& self.born_here()
        &&& self.children() == 0
        &&& self.sounds_started() == 0
        &&& self.requested_volume() is None
        &&& self.requested_state() is None
    }

    /// Everything but the children is as in `other`.
    pub open spec fn same_but_children(&self, other: &Track) -> bool {
        &&& self.born_here() == other.born_here()
        &&& self.sounds_started() == other.sounds_started()
        &&& self.requested_volume() == other.requested_volume()
        &&& self.requested_state() == other.requested_state()
    }
}

/// Relies on kira's `TrackHandle::add_sub_track`: attaches a new child
/// track with default settings, or fails when the parent holds no more
/// children and then attaches nothing.
#[verifier::external_body]
fn attach_sub_track(parent: &mut Track) -> (r: Result<Track, ResourceLimitReached>)
    ensures
        final(parent).children() == if r is Ok {
            old(parent).children() + 1
        } else {
            old(parent).children()
        },
        final(parent).same_but_children(old(parent)),
        r matches Ok(t) ==> t.is_fresh(),
{
    parent.handle.add_sub_track(TrackBuilder::default()).map(
        |handle|
            Track {
                handle,
                born: Ghost(true),
                attached: Ghost(0),
                started: Ghost(0),
                volume: Ghost(None),
                request: Ghost(None),
            },
    )
}

/// Relies on the `Display` impl of kira's `ResourceLimitReached`, which
/// writes one fixed sentence.
#[verifier::external_body]
fn limit_reached_text(e: &ResourceLimitReached) -> (r: String)
    ensures
        r@ == limit_reached_message(),
{
    e.to_string()
}

/// Relies on kira's `TrackHandle::play`: starts a copy of the sound on the
/// track. A `StaticSoundData` always turns into a sound, so the one failure
/// is a full track, displayed as one fixed sentence, which starts nothing.
#[verifier::external_body]
fn play_on(track: &mut Track, sound: &StaticSoundData) -> (r: Result<(), String>)
    ensures
        final(track).sounds_started() == if r is Ok {
            old(track).sounds_started() + 1
        } else {
            old(track).sounds_started()
        },
        final(track).children() == old(track).children(),
        final(track).born_here() == old(track).born_here(),
        final(track).requested_volume() == old(track).requested_volume(),
        final(track).requested_state() == old(track).requested_state(),
        r matches Err(m) ==> m@ == sound_limit_message(),
{
    track.handle.play(sound.clone()).map(|_| ()).map_err(|e| e.to_string())
}

/// Relies on kira's `TrackHandle::pause`: fades the track out with the
/// default tween, then pauses it.
#[verifier::external_body]
fn pause_track(track: &mut Track)
    ensures
        final(track).requested_state() == Some(PlayState::Paused),
        final(track).children() == old(track).children(),
        final(track).born_here() == old(track).born_here(),
        final(track).sounds_started() == old(track).sounds_started(),
        final(track).requested_volume() == old(track).requested_volume(),
{
    track.handle.pause(Tween::default())
}

/// Relies on kira's `TrackHandle::resume`: resumes the track now and fades
/// it in with the default tween.
#[verifier::external_body]
fn resume_track(track: &mut Track)
    ensures
        final(track).requested_state() == Some(PlayState::Playing),
        final(track).children() == old(track).children(),
        final(track).born_here() == old(track).born_here(),
        final(track).sounds_started() == old(track).sounds_started(),
        final(track).requested_volume() == old(track).requested_volume(),
{
    track.handle.resume(Tween::default())
}

/// Relies on kira's `TrackHandle::set_volume`: moves the track's volume to
/// the target with the default tween.
#[verifier::external_body]
fn set_track_volume(track: &mut Track, volume: Decibels)
    ensures
        final(track).requested_volume() == Some(volume),
        final(track).children() == old(track).children(),
        final(track).born_here() == old(track).born_here(),
        final(track).sounds_started() == old(track).sounds_started(),
        final(track).requested_state() == old(track).requested_state(),
{
    track.handle.set_volume(volume, Tween::default())
}

/// Relies on kira's `TrackHandle::state`, read as the matching `PlayState`.
/// A track attached by the library starts out playing and leaves that state only after a pause or
/// a resume.
#[verifier::external_body]
fn track_state(track: &Track) -> (r: PlayState)
    ensures
        track.born_here() && track.requested_state() is None ==> r == PlayState::Playing,
{
    match track.handle.state() {
        TrackPlaybackState::Playing => PlayState::Playing,
        TrackPlaybackState::Pausing => PlayState::Pausing,
        TrackPlaybackState::Paused => PlayState::Paused,
        TrackPlaybackState::WaitingToResume => PlayState::WaitingToResume,
        TrackPlaybackState::Resuming => PlayState::Resuming,
    }
}

/// Relies on kira's `TrackHandle::num_sounds`: the sounds playing now; on a
/// track that started empty, never more than were started.
#[verifier::external_body]
fn sound_count(track: &Track) -> (r: usize)
    ensures
        track.born_here() ==> r <= track.sounds_started(),
{
    track.handle.num_sounds()
}

/// Relies on kira's `TrackHandle::num_sub_tracks`: the live children now;
/// on a track that started empty, never more than were attached.
#[verifier::external_body]
fn sub_track_count(track: &Track) -> (r: usize)
    ensures
        track.born_here() ==> r <= track.children(),
{
    track.handle.num_sub_tracks()
}

/// Turns a full parent track into the library's error.
pub fn limit_reached_error(e: &ResourceLimitReached) -> (r: AudioError)
    ensures
        r.detail() == limit_reached_message(),
{
    AudioError::PlaySound(limit_reached_text(e))
}

/// The three top-level tracks of the mixer: Main under the backend's root,
/// Bgm and Effect under Main.
pub struct Mixer {
    main_track: Track,
    bgm_track: Track,
    effect_track: Track,
}

/// `after` is `before` with the volume of `base` set to `volume`: the
/// other tracks' volumes and every child count are untouched.
pub open spec fn volume_set(before: &Mixer, after: &Mixer, base: TrackType, volume: Decibels) -> bool {
    &&& after.requested_volume(base) == Some(volume)
    &&& forall|t: TrackType| t != base ==> #[trigger] after.requested_volume(t) == before.requested_volume(t)
    &&& forall|t: TrackType| #[trigger] after.children(t) == before.children(t)
    &&& forall|t: TrackType|
        #[trigger] after.track(t).born_here() == before.track(t).born_here()
}

impl Mixer {
    /// The top-level track of the given kind.
    pub closed spec fn track(&self, base: TrackType) -> Track {
        match base {
            TrackType::Main => self.main_track,
            TrackType::Bgm => self.bgm_track,
            TrackType::Effect => self.effect_track,
        }
    }

    /// The number of children attached to the given top-level track.
    pub open spec fn children(&self, base: TrackType) -> nat {
        self.track(base).children()
    }

    /// The last volume set on the given top-level track, if any.
    pub open spec fn requested_volume(&self, base: TrackType) -> Option<Decibels> {
        self.track(base).requested_volume()
    }

    /// Builds the tree under `main_track`: Bgm and Effect are attached to it
    /// as its two children, neither has children of its own, and no volume
    /// has been set.
    pub fn new(main_track: TrackHandle) -> (r: Result<Mixer, AudioError>)
        ensures
            r matches Ok(m) ==> {
                &&& m.children(TrackType::Main) == 2
                &&& m.track(TrackType::Bgm).born_here()
                &&& m.track(TrackType::Effect).born_here()
                &&& m.children(TrackType::Bgm) == 0
                &&& m.children(TrackType::Effect) == 0
                &&& forall|t: TrackType| #[trigger] m.requested_volume(t) is None
            },
            r matches Err(e) ==> e.detail() == limit_reached_message(),
    {
        let mut main_track = Track::adopt(main_track);
        let bgm_track = match attach_sub_track(&mut main_track) {
            Ok(t) => t,
            Err(e) => return Err(limit_reached_error(&e)),
        };
        let effect_track = match attach_sub_track(&mut main_track) {
            Ok(t) => t,
            Err(e) => return Err(limit_reached_error(&e)),
        };
        Ok(Mixer { main_track, bgm_track, effect_track })
    }

    /// Attaches a new child track under the chosen top-level track.
    ///
    /// On success that track has exactly one more child, the other two are
    /// untouched and the new track is fresh; on failure nothing changes.
    pub fn create_track(&mut self, base: TrackType) -> (r: Result<Track, AudioError>)
        ensures
            forall|t: TrackType|
                #![trigger final(self).children(t)]
                final(self).children(t) == if r is Ok && t == base {
                    old(self).children(t) + 1
                } else {
                    old(self).children(t)
                },
            forall|t: TrackType| #[trigger]
                final(self).requested_volume(t) == old(self).requested_volume(t),
            forall|t: TrackType| #[trigger]
                final(self).track(t).born_here() == old(self).track(t).born_here(),
            r matches Ok(n) ==> n.is_fresh(),
            r matches Err(e) ==> e.detail() == limit_reached_message(),
    {
        let attached = match base {
            TrackType::Main => attach_sub_track(&mut self.main_track),
            TrackType::Bgm => attach_sub_track(&mut self.bgm_track),
            TrackType::Effect => attach_sub_track(&mut self.effect_track),
        };
        match attached {
            Ok(track) => Ok(track),
            Err(e) => Err(limit_reached_error(&e)),
        }
    }

    /// Moves the volume of the chosen top-level track to `volume` with the
    /// default tween. The other tracks and the tree are untouched.
    pub fn set_volume(&mut self, base: TrackType, volume: Decibels)
        ensures
            volume_set(old(self), final(self), base, volume),
    {
        match base {
            TrackType::Main => set_track_volume(&mut self.main_track, volume),
            TrackType::Bgm => set_track_volume(&mut self.bgm_track, volume),
            TrackType::Effect => set_track_volume(&mut self.effect_track, volume),
        }
    }

    /// The live children of Main, as the backend counts them.
    pub fn num_main_sub_tracks(&self) -> (r: usize)
        ensures
            self.track(TrackType::Main).born_here() ==> r <= self.children(TrackType::Main),
    {
        sub_track_count(&self.main_track)
    }

    /// The live children of Bgm and of Effect, as the backend counts them.
    pub fn num_sub_tracks(&self) -> (r: (usize, usize))
        ensures
            self.track(TrackType::Bgm).born_here() ==> r.0 <= self.children(TrackType::Bgm),
            self.track(TrackType::Effect).born_here() ==> r.1 <= self.children(
                TrackType::Effect,
            ),
    {
        (sub_track_count(&self.bgm_track), sub_track_count(&self.effect_track))
    }
}

/// Volume requests on two different top-level tracks do not interfere:
/// after one on `a` and then one on `b`, each track is at the volume asked
/// of it, and the tree is as before.
pub proof fn lemma_volume_requests_commute(
    m0: &Mixer,
    m1: &Mixer,
    m2: &Mixer,
    a: TrackType,
    va: Decibels,
    b: TrackType,
    vb: Decibels,
)
    requires
        a != b,
        volume_set(m0, m1, a, va),
        volume_set(m1, m2, b, vb),
    ensures
        m2.requested_volume(a) == Some(va),
        m2.requested_volume(b) == Some(vb),
        forall|t: TrackType| #[trigger] m2.children(t) == m0.children(t),
{
    assert(m2.requested_volume(a) == m1.requested_volume(a));
}

impl Track {
    /// Moves the track's volume to `volume` with the default tween; the
    /// playback state and the counts are not touched.
    pub fn set_volume(&mut self, volume: Decibels)
        ensures
            final(self).requested_volume() == Some(volume),
            final(self).born_here() == old(self).born_here(),
            final(self).children() == old(self).children(),
            final(self).sounds_started() == old(self).sounds_started(),
            final(self).requested_state() == old(self).requested_state(),
    {
        set_track_volume(self, volume)
    }

    /// Starts the sound on this track, beside any sound already playing.
    ///
    /// It fails only when the track plays as many sounds as it can, and
    /// then starts nothing; the volume and the requested state are kept
    /// either way.
    pub fn play(&mut self, sound: &StaticSoundData) -> (r: Result<(), AudioError>)
        ensures
            final(self).sounds_started() == if r is Ok {
                old(self).sounds_started() + 1
            } else {
                old(self).sounds_started()
            },
            final(self).born_here() == old(self).born_here(),
            final(self).children() == old(self).children(),
            final(self).requested_volume() == old(self).requested_volume(),
            final(self).requested_state() == old(self).requested_state(),
            r matches Err(e) ==> e.detail() == sound_limit_message(),
    {
        match play_on(self, sound) {
            Ok(()) => Ok(()),
            Err(m) => Err(AudioError::PlaySound(m)),
        }
    }

    /// Fades the track out, then pauses it; `Paused` becomes the requested
    /// state.
    pub fn pause(&mut self)
        ensures
            final(self).requested_state() == Some(PlayState::Paused),
            final(self).born_here() == old(self).born_here(),
            final(self).children() == old(self).children(),
            final(self).requested_volume() == old(self).requested_volume(),
            final(self).sounds_started() == old(self).sounds_started(),
    {
        pause_track(self)
    }

    /// Resumes the track and fades it in; `Playing` becomes the requested
    /// state.
    pub fn resume(&mut self)
        ensures
            final(self).requested_state() == Some(PlayState::Playing),
            final(self).born_here() == old(self).born_here(),
            final(self).children() == old(self).children(),
            final(self).requested_volume() == old(self).requested_volume(),
            final(self).sounds_started() == old(self).sounds_started(),
    {
        resume_track(self)
    }

    /// The playback state that the backend reports now: `Playing` for a
    /// track attached here that was never paused or resumed.
    pub fn state(&self) -> (r: PlayState)
        ensures
            self.born_here() && self.requested_state() is None ==> r == PlayState::Playing,
    {
        track_state(self)
    }

    /// The number of sounds playing on the track now, never more than were
    /// started on it.
    pub fn num_sounds(&self) -> (r: usize)
        ensures
            self.born_here() ==> r <= self.sounds_started(),
    {
        sound_count(self)
    }
}

} // verus!
