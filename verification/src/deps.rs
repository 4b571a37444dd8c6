//! The external programs that downloads run, and which of them are installed.

use vstd::prelude::*;

verus! {

/// A program that the downloads need.
#[derive(Clone, Copy, Debug, PartialEq, Eq, Structural)]
pub enum Tool {
    /// Fetches Spotify links.
    Spotdl,
    /// Fetches SoundCloud links.
    Scdl,
    /// Converts audio for both.
    Ffmpeg,
}

impl Tool {
    /// The command that runs the program.
    pub fn command(&self) -> (r: &'static str)
        ensures
            r@ == match *self {
                Tool::Spotdl => "spotdl"@,
                Tool::Scdl => "scdl"@,
                Tool::Ffmpeg => "ffmpeg"@,
            },
    {
        match self {
            Tool::Spotdl => "spotdl",
            Tool::Scdl => "scdl",
            Tool::Ffmpeg => "ffmpeg",
        }
    }
}

/// Which of the programs were found.
#[derive(Clone, Copy, Debug, PartialEq, Eq, Structural)]
pub struct DepStatus {
    pub spotdl: bool,
    pub scdl: bool,
    pub ffmpeg: bool,
}

impl DepStatus {
    /// Asks `command_exists` about each program once, in the order spotdl,
    /// scdl, ffmpeg, and records each answer in its own field.
    pub fn check<F: Fn(Tool) -> bool>(command_exists: F) -> (s: DepStatus)
        requires
            forall|t: Tool| command_exists.requires((t,)),
        ensures
            command_exists.ensures((Tool::Spotdl,), s.spotdl),
            command_exists.ensures((Tool::Scdl,), s.scdl),
            command_exists.ensures((Tool::Ffmpeg,), s.ffmpeg),
    {
        let spotdl = command_exists(Tool::Spotdl);
        let scdl = command_exists(Tool::Scdl);
        let ffmpeg = command_exists(Tool::Ffmpeg);
        DepStatus { spotdl, scdl, ffmpeg }
    }
}

/// The word shown next to a program: "Installed" when it was found,
/// "Missing" otherwise.
pub fn presence_label(found: bool) -> (r: &'static str)
    ensures
        r@ == (if found {
            "Installed"@
        } else {
            "Missing"@
        }),
{
    if found {
        "Installed"
    } else {
        "Missing"
    }
}

} // verus!
