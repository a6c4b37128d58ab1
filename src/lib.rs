//! A hierarchical audio mixer shared by many scripting sessions: the
//! sandboxed resolution of sound paths, the shape of the mixer tree, the
//! playback states of a track and the registry of sessions.
use vstd::prelude::*;

pub mod audio;
pub mod error;
pub mod session;
pub mod utility;

pub use audio::{AudioError, Mixer, PlayState, Track, TrackType};
pub use error::Error;
pub use session::SessionRegistry;
pub use utility::{check_sound_file, to_sound_data_path};

verus! {

} // verus!
