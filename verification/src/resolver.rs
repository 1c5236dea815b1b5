//! Choosing the frame source.
//!
//! Resolution alternates between looking at the file system, which is the
//! host's work, and deciding what that means, which is done here. The host
//! begins with [`start`]; each answer is a [`Resolution`] that either asks
//! for one more look (`ListFrames`, `ReadGif`) or ends the attempt
//! (`Resolved`, `Failed`). The host reports a directory listing through
//! [`check_external_frames`] and [`frames_checked`], and a GIF file through
//! [`inspect_gif`] and [`gif_inspected`].
//!
//! Sources are tried in a fixed order, each only where the mode allows it:
//! stills, then the GIF, then the built-in set.

use crate::config::{Configuration, Mode};
use crate::gif::{decode_gif_to_images, gif_frames, usable_frames, RasterFrame, RasterImage};
use crate::naming::{count_png_entries, frame_file_paths, frame_path, frame_paths, png_count};
use vstd::prelude::*;

verus! {

/// The number of frames in the built-in set.
pub const FALLBACK_FRAME_COUNT: usize = 620;

/// The width to which the built-in set's frame numbers are padded.
pub const FALLBACK_DIGITS: u32 = 4;

/// The folder under which the built-in set is addressed.
pub open spec fn fallback_folder() -> Seq<char> {
    "embedded://frames"@
}

/// A directory of stills that was found to hold at least one frame.
#[derive(Debug)]
pub struct FrameInfo {
    /// The directory, relative to the assets directory.
    pub folder: String,
    /// The number of frames in it.
    pub count: usize,
    /// Frames per second.
    pub fps: u32,
    /// The width to which frame numbers are padded.
    pub digits: u32,
}

/// A `FrameInfo` as plain values.
pub struct FrameInfoView {
    pub folder: Seq<char>,
    pub count: nat,
    pub fps: u32,
    pub digits: u32,
}

impl View for FrameInfo {
    type V = FrameInfoView;

    open spec fn view(&self) -> FrameInfoView {
        FrameInfoView {
            folder: self.folder@,
            count: self.count as nat,
            fps: self.fps,
            digits: self.digits,
        }
    }
}

impl DeepView for FrameInfo {
    type V = FrameInfoView;

    open spec fn deep_view(&self) -> FrameInfoView {
        self@
    }
}

/// The frames to play, in order, and the rate to play them at.
#[derive(Debug)]
pub enum ResolvedSource {
    /// Stills from the configured directory, by path.
    Frames { paths: Vec<String>, fps: u32 },
    /// The frames of the configured GIF, decoded.
    Gif { frames: Vec<RasterFrame>, fps: u32 },
    /// The built-in set, by path.
    Fallback { paths: Vec<String>, fps: u32 },
}

/// A `ResolvedSource` as plain values.
pub enum SourceView {
    Frames { paths: Seq<Seq<char>>, fps: u32 },
    Gif { frames: Seq<RasterImage>, fps: u32 },
    Fallback { paths: Seq<Seq<char>>, fps: u32 },
}

impl SourceView {
    /// The number of frames.
    pub open spec fn len(self) -> nat {
        match self {
            SourceView::Frames { paths, .. } => paths.len(),
            SourceView::Gif { frames, .. } => frames.len(),
            SourceView::Fallback { paths, .. } => paths.len(),
        }
    }

    /// Frames per second.
    pub open spec fn fps(self) -> u32 {
        match self {
            SourceView::Frames { fps, .. } => fps,
            SourceView::Gif { fps, .. } => fps,
            SourceView::Fallback { fps, .. } => fps,
        }
    }
}

impl View for ResolvedSource {
    type V = SourceView;

    open spec fn view(&self) -> SourceView {
        match self {
            ResolvedSource::Frames { paths, fps } => SourceView::Frames {
                paths: paths.deep_view(),
                fps: *fps,
            },
            ResolvedSource::Gif { frames, fps } => SourceView::Gif {
                frames: frames.deep_view(),
                fps: *fps,
            },
            ResolvedSource::Fallback { paths, fps } => SourceView::Fallback {
                paths: paths.deep_view(),
                fps: *fps,
            },
        }
    }
}

/// Why resolution failed. Every one of these ends startup.
#[derive(Clone, Copy, Debug, PartialEq, Eq, Structural)]
pub enum ResolutionError {
    /// The mode is `Frame` and the directory holds no frame.
    ConfigMissingFrames,
    /// The mode is `Gif` and the file could not be decoded.
    GifDecodeFailed,
    /// The mode is `Gif` and there is no such file.
    GifMissing,
    /// The chosen source holds no frame.
    EmptyResolvedSequence,
}

/// What the host found where the GIF file should be.
#[derive(Debug)]
pub enum GifFile {
    /// No regular file of that name.
    Missing,
    /// A file that could not be read.
    Unreadable,
    /// The file's bytes.
    Contents(Vec<u8>),
}

/// What the GIF file turned out to be.
#[derive(Debug)]
pub enum GifFinding {
    /// No regular file of that name.
    Missing,
    /// A file that is unreadable, no GIF, broken in some frame, or without frames.
    Undecodable,
    /// The file's frames, in stream order.
    Decoded(Vec<RasterFrame>),
}

/// A `GifFinding` as plain values.
pub enum GifFindingView {
    Missing,
    Undecodable,
    Decoded(Seq<RasterImage>),
}

impl View for GifFinding {
    type V = GifFindingView;

    open spec fn view(&self) -> GifFindingView {
        match self {
            GifFinding::Missing => GifFindingView::Missing,
            GifFinding::Undecodable => GifFindingView::Undecodable,
            GifFinding::Decoded(frames) => GifFindingView::Decoded(frames.deep_view()),
        }
    }
}

/// Where a resolution attempt stands: what the host is to do next, or how
/// the attempt ended.
#[derive(Debug)]
pub enum Resolution {
    /// List the configured frame directory and report with `frames_checked`.
    ListFrames,
    /// Read the configured GIF file and report with `gif_inspected`.
    ReadGif,
    /// The source to play.
    Resolved(ResolvedSource),
    /// The attempt failed for good.
    Failed(ResolutionError),
}

/// A `Resolution` as plain values.
pub enum ResolutionView {
    ListFrames,
    ReadGif,
    Resolved(SourceView),
    Failed(ResolutionError),
}

impl View for Resolution {
    type V = ResolutionView;

    open spec fn view(&self) -> ResolutionView {
        match self {
            Resolution::ListFrames => ResolutionView::ListFrames,
            Resolution::ReadGif => ResolutionView::ReadGif,
            Resolution::Resolved(source) => ResolutionView::Resolved(source@),
            Resolution::Failed(error) => ResolutionView::Failed(*error),
        }
    }
}

/// The built-in set, played at `fps`.
pub open spec fn fallback_view(fps: u32) -> SourceView {
    SourceView::Fallback {
        paths: frame_paths(fallback_folder(), FALLBACK_FRAME_COUNT as nat, FALLBACK_DIGITS as nat),
        fps,
    }
}

/// What a directory listing says about the configured frame directory. The
/// listing is `None` where the directory does not exist or cannot be listed.
pub open spec fn frames_found(
    config: Configuration,
    listing: Option<Seq<Seq<char>>>,
) -> Option<FrameInfoView> {
    match listing {
        Some(names) => if png_count(names) > 0 {
            Some(
                FrameInfoView {
                    folder: config.frame_folder@,
                    count: png_count(names),
                    fps: config.fps,
                    digits: config.frame_digits,
                },
            )
        } else {
            None
        },
        None => None,
    }
}

/// The first thing to look at: the frame directory where the mode allows
/// stills, else the GIF file.
pub open spec fn first_step(config: Configuration) -> ResolutionView {
    if config.mode.tries_frames() {
        ResolutionView::ListFrames
    } else {
        ResolutionView::ReadGif
    }
}

/// The step that follows a look at the frame directory.
pub open spec fn after_frames(
    config: Configuration,
    found: Option<FrameInfoView>,
) -> ResolutionView {
    if config.mode.tries_frames() && found is Some {
        let info = found->0;
        if info.count > 0 {
            ResolutionView::Resolved(
                SourceView::Frames {
                    paths: frame_paths(config.frame_folder@, info.count, info.digits as nat),
                    fps: info.fps,
                },
            )
        } else {
            ResolutionView::Failed(ResolutionError::EmptyResolvedSequence)
        }
    } else if config.mode == Mode::Frame {
        ResolutionView::Failed(ResolutionError::ConfigMissingFrames)
    } else {
        ResolutionView::ReadGif
    }
}

/// How the attempt ends after a look at the GIF file.
pub open spec fn after_gif(config: Configuration, finding: GifFindingView) -> ResolutionView {
    if config.mode == Mode::Frame {
        ResolutionView::Failed(ResolutionError::ConfigMissingFrames)
    } else {
        match finding {
            GifFindingView::Decoded(frames) => if frames.len() > 0 {
                ResolutionView::Resolved(SourceView::Gif { frames, fps: config.fps })
            } else {
                ResolutionView::Failed(ResolutionError::EmptyResolvedSequence)
            },
            GifFindingView::Undecodable => if config.mode == Mode::Gif {
                ResolutionView::Failed(ResolutionError::GifDecodeFailed)
            } else {
                ResolutionView::Resolved(fallback_view(config.fps))
            },
            GifFindingView::Missing => if config.mode == Mode::Gif {
                ResolutionView::Failed(ResolutionError::GifMissing)
            } else {
                ResolutionView::Resolved(fallback_view(config.fps))
            },
        }
    }
}

/// What decoding makes of the file that the host found.
pub open spec fn inspected(file: GifFile) -> GifFindingView {
    match file {
        GifFile::Missing => GifFindingView::Missing,
        GifFile::Unreadable => GifFindingView::Undecodable,
        GifFile::Contents(bytes) => match usable_frames(gif_frames(bytes@)) {
            Some(frames) => GifFindingView::Decoded(frames),
            None => GifFindingView::Undecodable,
        },
    }
}

/// Where an attempt ends when the host follows each step: the frame
/// directory lists as `listing`, and the GIF file, if it comes to that, is
/// found to be `finding`.
pub open spec fn resolution(
    config: Configuration,
    listing: Option<Seq<Seq<char>>>,
    finding: GifFindingView,
) -> ResolutionView {
    match first_step(config) {
        ResolutionView::ListFrames => match after_frames(config, frames_found(config, listing)) {
            ResolutionView::ReadGif => after_gif(config, finding),
            ended => ended,
        },
        _ => after_gif(config, finding),
    }
}

/// The number of frames that a listing shows: none where there is no listing.
pub open spec fn listed_frames(listing: Option<Seq<Seq<char>>>) -> nat {
    match listing {
        Some(names) => png_count(names),
        None => 0,
    }
}

/// An attempt that is followed to its end ends: with a source or with an
/// error, never with another request.
pub proof fn lemma_resolution_ends(
    config: Configuration,
    listing: Option<Seq<Seq<char>>>,
    finding: GifFindingView,
)
    ensures
        resolution(config, listing, finding) is Resolved || resolution(
            config,
            listing,
            finding,
        ) is Failed,
{
}

/// A resolved source is never empty.
pub proof fn lemma_resolved_is_nonempty(
    config: Configuration,
    listing: Option<Seq<Seq<char>>>,
    finding: GifFindingView,
)
    ensures
        resolution(config, listing, finding) matches ResolutionView::Resolved(source)
            ==> source.len() > 0,
{
}

/// In mode `Frame`, a directory with `k >= 1` frames resolves to exactly
/// those `k` frames, named by the padded scheme in ascending order of
/// their numbers, at the configured rate, whatever the GIF file is.
pub proof fn lemma_frame_mode_takes_stills(
    config: Configuration,
    listing: Option<Seq<Seq<char>>>,
    finding: GifFindingView,
)
    requires
        config.mode == Mode::Frame,
        listed_frames(listing) >= 1,
    ensures
        resolution(config, listing, finding) matches ResolutionView::Resolved(
            SourceView::Frames { paths, fps },
        ) && {
            &&& fps == config.fps
            &&& paths.len() == listed_frames(listing)
            &&& forall|i: int|
                0 <= i < paths.len() ==> #[trigger] paths[i] == frame_path(
                    config.frame_folder@,
                    (i + 1) as nat,
                    config.frame_digits as nat,
                )
        },
{
}

/// In mode `Frame`, a directory without frames, or no directory, fails with
/// `ConfigMissingFrames`, whatever the GIF file is.
pub proof fn lemma_frame_mode_needs_stills(
    config: Configuration,
    listing: Option<Seq<Seq<char>>>,
    finding: GifFindingView,
)
    requires
        config.mode == Mode::Frame,
        listed_frames(listing) == 0,
    ensures
        resolution(config, listing, finding) == ResolutionView::Failed(
            ResolutionError::ConfigMissingFrames,
        ),
{
}

/// In mode `Auto` the sources are tried in one fixed order: stills win
/// where there are any; else the GIF wins where it decodes to at least one
/// frame; else the built-in set of 620 frames is used. The rate is the
/// configured one in each case.
pub proof fn lemma_auto_mode_priority(
    config: Configuration,
    listing: Option<Seq<Seq<char>>>,
    finding: GifFindingView,
)
    requires
        config.mode == Mode::Auto,
    ensures
        listed_frames(listing) >= 1 ==> resolution(config, listing, finding)
            == ResolutionView::Resolved(
            SourceView::Frames {
                paths: frame_paths(
                    config.frame_folder@,
                    listed_frames(listing),
                    config.frame_digits as nat,
                ),
                fps: config.fps,
            },
        ),
        listed_frames(listing) == 0 && finding is Decoded && finding->Decoded_0.len() > 0
            ==> resolution(config, listing, finding) == ResolutionView::Resolved(
            SourceView::Gif { frames: finding->Decoded_0, fps: config.fps },
        ),
        listed_frames(listing) == 0 && !(finding is Decoded) ==> {
            &&& resolution(config, listing, finding) == ResolutionView::Resolved(
                fallback_view(config.fps),
            )
            &&& fallback_view(config.fps).len() == 620
            &&& fallback_view(config.fps).fps() == config.fps
        },
{
}

/// In mode `Gif` the frame directory is never consulted: a missing file
/// fails with `GifMissing`, an undecodable one with `GifDecodeFailed`, and
/// a file that decodes to at least one frame is the source.
pub proof fn lemma_gif_mode_takes_gif(
    config: Configuration,
    listing: Option<Seq<Seq<char>>>,
    finding: GifFindingView,
)
    requires
        config.mode == Mode::Gif,
    ensures
        finding is Missing ==> resolution(config, listing, finding) == ResolutionView::Failed(
            ResolutionError::GifMissing,
        ),
        finding is Undecodable ==> resolution(config, listing, finding)
            == ResolutionView::Failed(ResolutionError::GifDecodeFailed),
        finding is Decoded && finding->Decoded_0.len() > 0 ==> resolution(
            config,
            listing,
            finding,
        ) == ResolutionView::Resolved(
            SourceView::Gif { frames: finding->Decoded_0, fps: config.fps },
        ),
{
}

/// Describes the configured frame directory from its listing: `Some` where
/// it was listed and holds at least one entry with a `png` extension, with
/// the number of such entries and the configuration's settings.
///
/// `listing` holds the file names of the directory's entries, or `None`
/// where the directory does not exist or cannot be listed.
pub fn check_external_frames(config: &Configuration, listing: &Option<Vec<String>>) -> (found:
    Option<FrameInfo>)
    ensures
        found.deep_view() == frames_found(*config, listing.deep_view()),
{
    match listing {
        Some(names) => {
            let count: usize = count_png_entries(names);
            if count > 0 {
                Some(
                    FrameInfo {
                        folder: config.frame_folder.clone(),
                        count,
                        fps: config.fps,
                        digits: config.frame_digits,
                    },
                )
            } else {
                None
            }
        },
        None => None,
    }
}

/// The built-in set, played at `fps`.
pub fn fallback_source(fps: u32) -> (source: ResolvedSource)
    ensures
        source@ == fallback_view(fps),
        source@.len() == FALLBACK_FRAME_COUNT,
{
    let paths = frame_file_paths("embedded://frames", FALLBACK_FRAME_COUNT, FALLBACK_DIGITS);
    ResolvedSource::Fallback { paths, fps }
}

/// Begins a resolution attempt.
pub fn start(config: &Configuration) -> (r: Resolution)
    ensures
        r@ == first_step(*config),
{
    if config.mode.should_try_frames() {
        Resolution::ListFrames
    } else {
        Resolution::ReadGif
    }
}

/// Goes on after the frame directory was looked at.
///
/// Where the mode allows stills and some were found, they are the source:
/// frames `1` to `count`, named by the padded scheme, in ascending order.
/// Without stills, mode `Frame` fails with `ConfigMissingFrames`, and the
/// other modes go on to the GIF file.
pub fn frames_checked(config: &Configuration, found: Option<FrameInfo>) -> (r: Resolution)
    ensures
        r@ == after_frames(*config, found.deep_view()),
{
    if config.mode.should_try_frames() {
        if let Some(info) = found {
            if info.count == 0 {
                return Resolution::Failed(ResolutionError::EmptyResolvedSequence);
            }
            let paths = frame_file_paths(config.frame_folder.as_str(), info.count, info.digits);
            return Resolution::Resolved(ResolvedSource::Frames { paths, fps: info.fps });
        }
    }
    match config.mode {
        Mode::Frame => Resolution::Failed(ResolutionError::ConfigMissingFrames),
        _ => Resolution::ReadGif,
    }
}

/// Decodes the GIF file that the host found, if it found one.
pub fn inspect_gif(file: GifFile) -> (finding: GifFinding)
    ensures
        finding@ == inspected(file),
{
    match file {
        GifFile::Missing => GifFinding::Missing,
        GifFile::Unreadable => GifFinding::Undecodable,
        GifFile::Contents(bytes) => match decode_gif_to_images(bytes.as_slice()) {
            Some(frames) => GifFinding::Decoded(frames),
            None => GifFinding::Undecodable,
        },
    }
}

/// Ends the attempt after the GIF file was looked at.
///
/// Decoded frames are the source. A missing or undecodable file fails in
/// mode `Gif`, with `GifMissing` or `GifDecodeFailed`; in mode `Auto` the
/// built-in set takes its place. Mode `Frame` never comes here by way of
/// `start` and `frames_checked`; it has no source but stills.
pub fn gif_inspected(config: &Configuration, finding: GifFinding) -> (r: Resolution)
    ensures
        r@ == after_gif(*config, finding@),
        !(r is ListFrames) && !(r is ReadGif),
{
    match config.mode {
        Mode::Frame => Resolution::Failed(ResolutionError::ConfigMissingFrames),
        Mode::Gif => match finding {
            GifFinding::Decoded(frames) => if frames.len() > 0 {
                Resolution::Resolved(ResolvedSource::Gif { frames, fps: config.fps })
            } else {
                Resolution::Failed(ResolutionError::EmptyResolvedSequence)
            },
            GifFinding::Undecodable => Resolution::Failed(ResolutionError::GifDecodeFailed),
            GifFinding::Missing => Resolution::Failed(ResolutionError::GifMissing),
        },
        Mode::Auto => match finding {
            GifFinding::Decoded(frames) => if frames.len() > 0 {
                Resolution::Resolved(ResolvedSource::Gif { frames, fps: config.fps })
            } else {
                Resolution::Failed(ResolutionError::EmptyResolvedSequence)
            },
            _ => Resolution::Resolved(fallback_source(config.fps)),
        },
    }
}

/// Resolves in one call, for a host that has looked at both places
/// beforehand: the frame directory lists as `listing`, and `file` is what
/// stands where the GIF should be. The steps are taken as `start` and its
/// successors give them, so the file is decoded only if they come to it.
pub fn resolve(config: &Configuration, listing: &Option<Vec<String>>, file: GifFile) -> (r: Result<
    ResolvedSource,
    ResolutionError,
>)
    ensures
        resolution(*config, listing.deep_view(), inspected(file)) == match r {
            Ok(source) => ResolutionView::Resolved(source@),
            Err(error) => ResolutionView::Failed(error),
        },
{
    let after_directory = match start(config) {
        Resolution::ListFrames => frames_checked(config, check_external_frames(config, listing)),
        first => first,
    };
    match after_directory {
        Resolution::Resolved(source) => Ok(source),
        Resolution::Failed(error) => Err(error),
        _ => match gif_inspected(config, inspect_gif(file)) {
            Resolution::Resolved(source) => Ok(source),
            Resolution::Failed(error) => Err(error),
            _ => unreached(),
        },
    }
}

} // verus!
