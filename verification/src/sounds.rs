//! The alert sounds that the application ships.

use vstd::prelude::*;
use vstd::string::StringExecFns;
use crate::model::default_sound;

verus! {

/// Whether `name` is the file name of a sound that ships with the
/// application.
pub open spec fn is_known_sound(name: Seq<char>) -> bool {
    name == "beep.mp3"@ || name == "beep2_loud.mp3"@ || name == "beep3_vibish.mp3"@ || name
        == "beep4_voice.mp3"@ || name == "beep5_reporter.mp3"@ || name == "beep6_dingding.mp3"@
}

/// The sound to play for `name`: the sound of that name where there is one,
/// else the default sound.
pub open spec fn sound_for(name: Seq<char>) -> Seq<char> {
    if is_known_sound(name) {
        name
    } else {
        default_sound()
    }
}

/// Picks the file of the sound to play for the name that was asked for. An
/// unknown name plays the default sound.
pub fn resolve_sound(name: &str) -> (file: String)
    ensures
        file@ == sound_for(name@),
{
    let asked = String::from_str(name);
    if asked == String::from_str("beep.mp3") || asked == String::from_str("beep2_loud.mp3")
        || asked == String::from_str("beep3_vibish.mp3") || asked == String::from_str(
        "beep4_voice.mp3",
    ) || asked == String::from_str("beep5_reporter.mp3") || asked == String::from_str(
        "beep6_dingding.mp3",
    ) {
        asked
    } else {
        String::from_str("beep.mp3")
    }
}

} // verus!
