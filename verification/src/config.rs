//! The configuration record that drives frame-source resolution.

use crate::text::{eq_ignore_ascii_case, matches_word};
use vstd::prelude::*;

verus! {

/// Which frame sources the user allows.
#[derive(Clone, Copy, Debug, PartialEq, Eq, Structural)]
pub enum Mode {
    /// Only a directory of numbered stills; it is an error if none is found.
    Frame,
    /// Only an animated GIF; it is an error if none can be used.
    Gif,
    /// Stills first, then a GIF, then the built-in frame set.
    Auto,
}

/// The mode that a configuration file's word stands for, if any.
pub open spec fn mode_named(name: Seq<char>) -> Option<Mode> {
    if eq_ignore_ascii_case(name, "frame"@) {
        Some(Mode::Frame)
    } else if eq_ignore_ascii_case(name, "gif"@) {
        Some(Mode::Gif)
    } else if eq_ignore_ascii_case(name, "auto"@) {
        Some(Mode::Auto)
    } else {
        None
    }
}

impl Mode {
    /// Whether this mode looks for a directory of stills.
    pub open spec fn tries_frames(self) -> bool {
        self == Mode::Frame || self == Mode::Auto
    }

    /// Whether this mode looks for an animated GIF.
    pub open spec fn tries_gif(self) -> bool {
        self == Mode::Gif || self == Mode::Auto
    }

    /// Whether this mode looks for a directory of stills.
    pub fn should_try_frames(&self) -> (r: bool)
        ensures
            r == self.tries_frames(),
    {
        match self {
            Mode::Frame => true,
            Mode::Gif => false,
            Mode::Auto => true,
        }
    }

    /// Whether this mode looks for an animated GIF.
    pub fn should_try_gif(&self) -> (r: bool)
        ensures
            r == self.tries_gif(),
    {
        match self {
            Mode::Frame => false,
            Mode::Gif => true,
            Mode::Auto => true,
        }
    }

    /// Reads a mode from the word a configuration file uses for it:
    /// `frame`, `gif` or `auto`, in any letter case. Any other word is no mode.
    pub fn parse(name: &str) -> (r: Option<Mode>)
        ensures
            r == mode_named(name@),
    {
        if matches_word(name, "frame") {
            Some(Mode::Frame)
        } else if matches_word(name, "gif") {
            Some(Mode::Gif)
        } else if matches_word(name, "auto") {
            Some(Mode::Auto)
        } else {
            None
        }
    }
}

/// What the host's configuration provider supplies, loaded once per
/// resolution attempt and never changed afterwards.
#[derive(Clone, Debug)]
pub struct Configuration {
    /// The frame sources the user allows.
    pub mode: Mode,
    /// Frames per second.
    pub fps: u32,
    /// The directory of stills, relative to the assets directory.
    pub frame_folder: String,
    /// The width to which frame numbers are zero-padded in file names.
    pub frame_digits: u32,
    /// The GIF file, relative to the assets directory; `None` selects the default name.
    pub gif_path: Option<String>,
}

impl Configuration {
    /// The GIF file name this configuration selects.
    pub open spec fn gif_name(&self) -> Seq<char> {
        match self.gif_path {
            Some(path) => path@,
            None => "anim.gif"@,
        }
    }
}

/// The name of the GIF file to look for below the assets directory: the
/// configured one, or `anim.gif` where none is configured.
pub fn gif_file_name(config: &Configuration) -> (name: String)
    ensures
        name@ == config.gif_name(),
{
    match &config.gif_path {
        Some(path) => path.clone(),
        None => String::from_str("anim.gif"),
    }
}

} // verus!
