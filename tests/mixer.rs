use std::sync::Arc;

use audio_engine::{AudioError, Mixer, PlayState, TrackType};
use kira::sound::static_sound::{StaticSoundData, StaticSoundSettings};
use kira::track::TrackBuilder;
use kira::{AudioManager, AudioManagerSettings, Decibels, DefaultBackend, Frame};

fn manager() -> AudioManager<DefaultBackend> {
    AudioManager::<DefaultBackend>::new(AudioManagerSettings::default()).unwrap()
}

#[test]
fn new_mixer_has_bgm_and_effect_under_main() {
    let mut manager = manager();
    let main = manager.add_sub_track(TrackBuilder::default()).unwrap();
    let mixer = Mixer::new(main).ok().unwrap();
    assert_eq!(mixer.num_main_sub_tracks(), 2);
    assert_eq!(mixer.num_sub_tracks(), (0, 0));
}

#[test]
fn create_bgm_track_adds_one_child_to_bgm_only() {
    let mut manager = manager();
    let main = manager.add_sub_track(TrackBuilder::default()).unwrap();
    let mut mixer = Mixer::new(main).ok().unwrap();
    let first = mixer.create_track(TrackType::Bgm).ok().unwrap();
    assert_eq!(mixer.num_sub_tracks(), (1, 0));
    let second = mixer.create_track(TrackType::Effect).ok().unwrap();
    assert_eq!(mixer.num_sub_tracks(), (1, 1));
    let third = mixer.create_track(TrackType::Main).ok().unwrap();
    assert_eq!(mixer.num_main_sub_tracks(), 3);
    drop((first, second, third));
}

#[test]
fn new_track_is_playing_and_silent() {
    let mut manager = manager();
    let main = manager.add_sub_track(TrackBuilder::default()).unwrap();
    let mut mixer = Mixer::new(main).ok().unwrap();
    let track = mixer.create_track(TrackType::Effect).ok().unwrap();
    assert_eq!(track.state(), PlayState::Playing);
    assert_eq!(track.num_sounds(), 0);
}

#[test]
fn played_sounds_are_counted() {
    let mut manager = manager();
    let main = manager.add_sub_track(TrackBuilder::default()).unwrap();
    let mut mixer = Mixer::new(main).ok().unwrap();
    let mut track = mixer.create_track(TrackType::Bgm).ok().unwrap();
    let frames: Arc<[Frame]> = vec![Frame { left: 0.0, right: 0.0 }; 16].into();
    let sound = StaticSoundData {
        sample_rate: 48000,
        frames,
        settings: StaticSoundSettings::default(),
        slice: None,
    };
    assert!(track.play(&sound).is_ok());
    assert!(track.play(&sound).is_ok());
    assert_eq!(track.num_sounds(), 2);
}

#[test]
fn audio_error_message() {
    let e = AudioError::PlaySound("limit".to_string());
    assert_eq!(e.message(), "Failed to play sound: limit");
}

#[test]
fn full_track_error_names_the_limit() {
    let e = audio_engine::audio::limit_reached_error(&kira::ResourceLimitReached);
    assert_eq!(
        e.message(),
        "Failed to play sound: Could not add a resource because the maximum capacity for that resource has been reached"
    );
}

#[test]
fn track_keeps_requested_volume() {
    let mut manager = manager();
    let main = manager.add_sub_track(TrackBuilder::default()).unwrap();
    let mut mixer = Mixer::new(main).ok().unwrap();
    let mut track = mixer.create_track(TrackType::Bgm).ok().unwrap();
    track.set_volume(Decibels(-6.0));
    assert_eq!(track.state(), PlayState::Playing);
    assert_eq!(track.num_sounds(), 0);
}

#[test]
fn volume_requests_leave_the_tree_alone() {
    let mut manager = manager();
    let main = manager.add_sub_track(TrackBuilder::default()).unwrap();
    let mut mixer = Mixer::new(main).ok().unwrap();
    mixer.set_volume(TrackType::Bgm, Decibels(-6.0));
    mixer.set_volume(TrackType::Effect, Decibels(-2.0));
    mixer.set_volume(TrackType::Main, Decibels::SILENCE);
    assert_eq!(mixer.num_sub_tracks(), (0, 0));
    assert_eq!(mixer.num_main_sub_tracks(), 2);
}

fn step(manager: &mut AudioManager<DefaultBackend>, times: usize) {
    for _ in 0..times {
        manager.backend_mut().on_start_processing();
        manager.backend_mut().process();
    }
}

#[test]
fn pause_and_resume_pass_through_fades() {
    let mut manager = AudioManager::<DefaultBackend>::new(AudioManagerSettings {
        backend_settings: kira::backend::mock::MockBackendSettings { sample_rate: 48000 },
        ..Default::default()
    })
    .unwrap();
    let main = manager.add_sub_track(TrackBuilder::default()).unwrap();
    let mut mixer = Mixer::new(main).ok().unwrap();
    let mut track = mixer.create_track(TrackType::Bgm).ok().unwrap();
    let frames: Arc<[Frame]> = vec![Frame { left: 0.0, right: 0.0 }; 480000].into();
    let sound = StaticSoundData {
        sample_rate: 48000,
        frames,
        settings: StaticSoundSettings::default(),
        slice: None,
    };
    assert!(track.play(&sound).is_ok());
    step(&mut manager, 1);
    assert_eq!(track.state(), PlayState::Playing);
    track.pause();
    step(&mut manager, 1);
    assert_eq!(track.state(), PlayState::Pausing);
    step(&mut manager, 20);
    assert_eq!(track.state(), PlayState::Paused);
    track.resume();
    step(&mut manager, 1);
    assert_eq!(track.state(), PlayState::Resuming);
    step(&mut manager, 20);
    assert_eq!(track.state(), PlayState::Playing);
}

#[test]
fn full_track_refuses_another_sound() {
    let mut manager = manager();
    let main = manager.add_sub_track(TrackBuilder::default()).unwrap();
    let mut mixer = Mixer::new(main).ok().unwrap();
    let mut track = mixer.create_track(TrackType::Bgm).ok().unwrap();
    let frames: Arc<[Frame]> = vec![Frame { left: 0.0, right: 0.0 }; 16].into();
    let sound = StaticSoundData {
        sample_rate: 48000,
        frames,
        settings: StaticSoundSettings::default(),
        slice: None,
    };
    let mut refused = None;
    for _ in 0..100_000 {
        if let Err(e) = track.play(&sound) {
            refused = Some(e);
            break;
        }
    }
    let e = refused.expect("the track never filled up");
    assert_eq!(
        e.message(),
        "Failed to play sound: Could not play a sound because the maximum number of sounds has been reached."
    );
    assert_eq!(track.state(), PlayState::Playing);
}
