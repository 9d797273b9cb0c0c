//! The sound player's choice of what to play: the embedded default sound, or
//! the file that the caller named.
//!
//! Nothing here touches the file system or an audio device. Whether the path
//! names an existing file is asked of the caller, and only where the answer
//! matters.

use vstd::prelude::*;

verus! {

/// The next step of playing a sound.
#[derive(Clone, Debug, PartialEq, Eq)]
pub enum SoundStep {
    /// Find out whether the path names an existing file, then ask again with
    /// the answer.
    ProbeFile,
    /// Play the embedded default sound. `warn` is set where a path was given
    /// that names no file: that is worth a warning, and no more.
    PlayEmbedded { warn: bool },
    /// Play the file at this path.
    PlayFile(String),
}

/// The next step of playing a sound, by this order: no path, or an empty one,
/// means the embedded default; a path of which it is not yet known whether it
/// names a file must be probed; a path that names no file means the embedded
/// default, with a warning; a path that names a file means that file.
pub open spec fn sound_plan(filepath_sound: Option<String>, is_file: Option<bool>) -> SoundStep {
    match filepath_sound {
        None => SoundStep::PlayEmbedded { warn: false },
        Some(path) => if path@.len() == 0 {
            SoundStep::PlayEmbedded { warn: false }
        } else {
            match is_file {
                None => SoundStep::ProbeFile,
                Some(false) => SoundStep::PlayEmbedded { warn: true },
                Some(true) => SoundStep::PlayFile(path),
            }
        },
    }
}

/// The next step of playing the sound at `filepath_sound`. `is_file` is `None`
/// until the path was probed, and then says whether it names an existing file.
///
/// A path that is absent, empty or names no file always leads to the embedded
/// default, and the file system is asked about neither of the first two. A
/// path that names an existing file always leads to that file.
pub fn play_sound(filepath_sound: &Option<String>, is_file: Option<bool>) -> (step: SoundStep)
    ensures
        step == sound_plan(*filepath_sound, is_file),
        filepath_sound is None || filepath_sound->0@.len() == 0 ==> step == (SoundStep::PlayEmbedded {
            warn: false,
        }),
        is_file == Some(false) ==> step is PlayEmbedded,
        filepath_sound is Some && filepath_sound->0@.len() > 0 && is_file == Some(true) ==> step
            == SoundStep::PlayFile(filepath_sound->0),
        step is ProbeFile <==> filepath_sound is Some && filepath_sound->0@.len() > 0 && is_file is None,
        step is PlayFile ==> is_file == Some(true),
{
    match filepath_sound {
        None => SoundStep::PlayEmbedded { warn: false },
        Some(path) => {
            if path.as_str().is_empty() {
                SoundStep::PlayEmbedded { warn: false }
            } else {
                match is_file {
                    None => SoundStep::ProbeFile,
                    Some(false) => SoundStep::PlayEmbedded { warn: true },
                    Some(true) => SoundStep::PlayFile(path.clone()),
                }
            }
        },
    }
}

} // verus!
