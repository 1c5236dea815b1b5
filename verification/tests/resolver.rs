use frame_animation::config::{Configuration, Mode};
use frame_animation::gif::{PixelFormat, RasterFrame};
use frame_animation::resolver::{
    check_external_frames, fallback_source, frames_checked, gif_inspected, inspect_gif, resolve,
    start, FrameInfo, GifFile, GifFinding, Resolution, ResolutionError, ResolvedSource,
    FALLBACK_DIGITS, FALLBACK_FRAME_COUNT,
};
use image::codecs::gif::GifEncoder;
use image::{Frame, Rgba, RgbaImage};

fn configuration(mode: Mode) -> Configuration {
    Configuration {
        mode,
        fps: 24,
        frame_folder: "frames".to_string(),
        frame_digits: 4,
        gif_path: None,
    }
}

fn listing(names: &[&str]) -> Option<Vec<String>> {
    Some(names.iter().map(|n| n.to_string()).collect())
}

fn gif_bytes(frames: u8) -> Vec<u8> {
    let mut bytes = Vec::new();
    {
        let mut encoder = GifEncoder::new(&mut bytes);
        for i in 0..frames {
            let image = RgbaImage::from_pixel(2, 2, Rgba([i, 0, 0, 255]));
            encoder.encode_frame(Frame::new(image)).expect("encoding");
        }
    }
    bytes
}

fn raster(value: u8) -> RasterFrame {
    RasterFrame { width: 1, height: 1, format: PixelFormat::Rgba8UnormSrgb, data: vec![value; 4] }
}

/// Follows the steps as a host does, with what it would find on disk.
fn follow(
    config: &Configuration,
    directory: Option<Vec<String>>,
    file: GifFile,
) -> Result<ResolvedSource, ResolutionError> {
    let mut file = Some(file);
    let mut step = start(config);
    loop {
        step = match step {
            Resolution::ListFrames => frames_checked(config, check_external_frames(config, &directory)),
            Resolution::ReadGif => gif_inspected(config, inspect_gif(file.take().expect("one read"))),
            Resolution::Resolved(source) => return Ok(source),
            Resolution::Failed(error) => return Err(error),
        };
    }
}

#[test]
fn starts_with_the_directory_where_stills_are_allowed() {
    assert!(matches!(start(&configuration(Mode::Frame)), Resolution::ListFrames));
    assert!(matches!(start(&configuration(Mode::Auto)), Resolution::ListFrames));
    assert!(matches!(start(&configuration(Mode::Gif)), Resolution::ReadGif));
}

#[test]
fn describes_a_directory_with_frames() {
    let config = configuration(Mode::Frame);
    let info = check_external_frames(&config, &listing(&["frame_0001.png", "readme.md", "frame_0002.PNG"]))
        .expect("two frames");
    assert_eq!(info.count, 2);
    assert_eq!(info.fps, 24);
    assert_eq!(info.digits, 4);
    assert_eq!(info.folder, "frames");
}

#[test]
fn finds_nothing_without_png_entries() {
    let config = configuration(Mode::Auto);
    assert!(check_external_frames(&config, &None).is_none());
    assert!(check_external_frames(&config, &listing(&[])).is_none());
    assert!(check_external_frames(&config, &listing(&["a.gif", ".png", "notes"])).is_none());
}

#[test]
fn frame_mode_selects_every_still_in_order() {
    let config = configuration(Mode::Frame);
    let names = ["frame_0003.png", "frame_0001.png", "frame_0002.png", "desktop.ini", "frame_0004.PNG", "frame_0005.png"];
    match follow(&config, listing(&names), GifFile::Missing) {
        Ok(ResolvedSource::Frames { paths, fps }) => {
            assert_eq!(fps, 24);
            assert_eq!(
                paths,
                vec![
                    "frames/frame_0001.png",
                    "frames/frame_0002.png",
                    "frames/frame_0003.png",
                    "frames/frame_0004.png",
                    "frames/frame_0005.png",
                ]
            );
        }
        other => panic!("{:?}", other),
    }
}

#[test]
fn frame_mode_uses_the_configured_padding() {
    let mut config = configuration(Mode::Frame);
    config.frame_folder = "walk".to_string();
    config.frame_digits = 2;
    config.fps = 12;
    match follow(&config, listing(&["a.png"]), GifFile::Contents(gif_bytes(2))) {
        Ok(ResolvedSource::Frames { paths, fps }) => {
            assert_eq!(fps, 12);
            assert_eq!(paths, vec!["walk/frame_01.png"]);
        }
        other => panic!("{:?}", other),
    }
}

#[test]
fn frame_mode_without_stills_is_fatal() {
    let config = configuration(Mode::Frame);
    for directory in [None, listing(&[]), listing(&["anim.gif", "notes.txt"])] {
        let result = follow(&config, directory, GifFile::Contents(gif_bytes(2)));
        assert!(matches!(result, Err(ResolutionError::ConfigMissingFrames)), "{:?}", result);
    }
    assert!(matches!(
        frames_checked(&config, None),
        Resolution::Failed(ResolutionError::ConfigMissingFrames)
    ));
}

#[test]
fn gif_mode_without_a_file_is_fatal() {
    let config = configuration(Mode::Gif);
    assert_eq!(config.gif_path, None);
    let result = follow(&config, listing(&["frame_0001.png"]), GifFile::Missing);
    assert!(matches!(result, Err(ResolutionError::GifMissing)), "{:?}", result);
}

#[test]
fn gif_mode_with_a_broken_file_is_fatal() {
    let config = configuration(Mode::Gif);
    for file in [GifFile::Unreadable, GifFile::Contents(b"GIF89a but not really".to_vec()), GifFile::Contents(Vec::new())] {
        let result = follow(&config, None, file);
        assert!(matches!(result, Err(ResolutionError::GifDecodeFailed)), "{:?}", result);
    }
}

#[test]
fn gif_mode_plays_the_decoded_frames() {
    let mut config = configuration(Mode::Gif);
    config.fps = 50;
    match follow(&config, listing(&["frame_0001.png"]), GifFile::Contents(gif_bytes(3))) {
        Ok(ResolvedSource::Gif { frames, fps }) => {
            assert_eq!(fps, 50);
            assert_eq!(frames.len(), 3);
            for (i, frame) in frames.iter().enumerate() {
                assert_eq!((frame.width, frame.height), (2, 2));
                assert_eq!(frame.data[0], i as u8);
            }
        }
        other => panic!("{:?}", other),
    }
}

#[test]
fn auto_mode_prefers_stills() {
    let config = configuration(Mode::Auto);
    match follow(&config, listing(&["frame_0001.png", "frame_0002.png"]), GifFile::Contents(gif_bytes(3))) {
        Ok(ResolvedSource::Frames { paths, fps }) => {
            assert_eq!(fps, 24);
            assert_eq!(paths, vec!["frames/frame_0001.png", "frames/frame_0002.png"]);
        }
        other => panic!("{:?}", other),
    }
}

#[test]
fn auto_mode_takes_the_gif_when_there_are_no_stills() {
    let config = configuration(Mode::Auto);
    match follow(&config, listing(&["notes.txt"]), GifFile::Contents(gif_bytes(4))) {
        Ok(ResolvedSource::Gif { frames, fps }) => {
            assert_eq!(fps, 24);
            assert_eq!(frames.len(), 4);
        }
        other => panic!("{:?}", other),
    }
}

#[test]
fn auto_mode_falls_back_to_the_built_in_set() {
    let config = configuration(Mode::Auto);
    for file in [GifFile::Missing, GifFile::Unreadable, GifFile::Contents(b"broken".to_vec())] {
        match follow(&config, None, file) {
            Ok(ResolvedSource::Fallback { paths, fps }) => {
                assert_eq!(fps, 24);
                assert_eq!(paths.len(), 620);
                assert_eq!(paths[0], "embedded://frames/frame_0001.png");
                assert_eq!(paths[99], "embedded://frames/frame_0100.png");
                assert_eq!(paths[619], "embedded://frames/frame_0620.png");
            }
            other => panic!("{:?}", other),
        }
    }
}

#[test]
fn built_in_set_has_620_frames_with_four_digits() {
    assert_eq!(FALLBACK_FRAME_COUNT, 620);
    assert_eq!(FALLBACK_DIGITS, 4);
    match fallback_source(60) {
        ResolvedSource::Fallback { paths, fps } => {
            assert_eq!(fps, 60);
            assert_eq!(paths.len(), 620);
            for (i, path) in paths.iter().enumerate() {
                assert_eq!(*path, format!("embedded://frames/frame_{:04}.png", i + 1));
            }
        }
        other => panic!("{:?}", other),
    }
}

#[test]
fn inspects_what_the_host_found() {
    assert!(matches!(inspect_gif(GifFile::Missing), GifFinding::Missing));
    assert!(matches!(inspect_gif(GifFile::Unreadable), GifFinding::Undecodable));
    assert!(matches!(inspect_gif(GifFile::Contents(vec![1, 2, 3])), GifFinding::Undecodable));
    match inspect_gif(GifFile::Contents(gif_bytes(2))) {
        GifFinding::Decoded(frames) => assert_eq!(frames.len(), 2),
        other => panic!("{:?}", other),
    }
}

#[test]
fn decoded_frames_are_the_source_in_their_order() {
    let config = configuration(Mode::Auto);
    match gif_inspected(&config, GifFinding::Decoded(vec![raster(7), raster(8), raster(9)])) {
        Resolution::Resolved(ResolvedSource::Gif { frames, fps }) => {
            assert_eq!(fps, 24);
            let values: Vec<u8> = frames.iter().map(|f| f.data[0]).collect();
            assert_eq!(values, vec![7, 8, 9]);
        }
        other => panic!("{:?}", other),
    }
}

#[test]
fn an_empty_source_is_fatal() {
    for mode in [Mode::Gif, Mode::Auto] {
        let config = configuration(mode);
        assert!(matches!(
            gif_inspected(&config, GifFinding::Decoded(Vec::new())),
            Resolution::Failed(ResolutionError::EmptyResolvedSequence)
        ));
    }
    let config = configuration(Mode::Frame);
    let empty = FrameInfo { folder: "frames".to_string(), count: 0, fps: 24, digits: 4 };
    assert!(matches!(
        frames_checked(&config, Some(empty)),
        Resolution::Failed(ResolutionError::EmptyResolvedSequence)
    ));
}

#[test]
fn stills_are_ignored_where_the_mode_forbids_them() {
    let config = configuration(Mode::Gif);
    let info = FrameInfo { folder: "frames".to_string(), count: 3, fps: 24, digits: 4 };
    assert!(matches!(frames_checked(&config, Some(info)), Resolution::ReadGif));
    assert!(matches!(frames_checked(&configuration(Mode::Auto), None), Resolution::ReadGif));
}

#[test]
fn frame_mode_has_no_source_but_stills() {
    let config = configuration(Mode::Frame);
    for finding in [GifFinding::Missing, GifFinding::Undecodable, GifFinding::Decoded(vec![raster(1)])] {
        assert!(matches!(
            gif_inspected(&config, finding),
            Resolution::Failed(ResolutionError::ConfigMissingFrames)
        ));
    }
}

fn summary(result: &Result<ResolvedSource, ResolutionError>) -> String {
    match result {
        Ok(ResolvedSource::Frames { paths, fps }) => format!("frames {:?} {}", paths, fps),
        Ok(ResolvedSource::Gif { frames, fps }) => format!("gif {:?} {}", frames, fps),
        Ok(ResolvedSource::Fallback { paths, fps }) => format!("fallback {} {}", paths.len(), fps),
        Err(error) => format!("error {:?}", error),
    }
}

#[test]
fn resolving_in_one_call_follows_the_steps() {
    let directories = [None, listing(&[]), listing(&["a.txt"]), listing(&["a.png", "b.PNG", "c.gif"])];
    let files = || {
        vec![
            GifFile::Missing,
            GifFile::Unreadable,
            GifFile::Contents(b"junk".to_vec()),
            GifFile::Contents(gif_bytes(3)),
        ]
    };
    for mode in [Mode::Frame, Mode::Gif, Mode::Auto] {
        let config = configuration(mode);
        for directory in &directories {
            for (at_once, stepwise) in files().into_iter().zip(files()) {
                let one = resolve(&config, directory, at_once);
                let other = follow(&config, directory.clone(), stepwise);
                assert_eq!(summary(&one), summary(&other));
            }
        }
    }
}

#[test]
fn resolves_each_mode_in_one_call() {
    let stills = listing(&["frame_0001.png", "frame_0002.png", "frame_0003.png"]);
    let frame = resolve(&configuration(Mode::Frame), &stills, GifFile::Missing);
    assert!(matches!(&frame, Ok(ResolvedSource::Frames { paths, fps: 24 }) if paths.len() == 3), "{:?}", frame);
    let gif = resolve(&configuration(Mode::Gif), &stills, GifFile::Contents(gif_bytes(2)));
    assert!(matches!(&gif, Ok(ResolvedSource::Gif { frames, fps: 24 }) if frames.len() == 2), "{:?}", gif);
    let auto = resolve(&configuration(Mode::Auto), &None, GifFile::Missing);
    assert!(matches!(&auto, Ok(ResolvedSource::Fallback { paths, fps: 24 }) if paths.len() == 620), "{:?}", auto);
    let missing = resolve(&configuration(Mode::Gif), &stills, GifFile::Missing);
    assert!(matches!(missing, Err(ResolutionError::GifMissing)));
    let none = resolve(&configuration(Mode::Frame), &listing(&["a.gif"]), GifFile::Contents(gif_bytes(2)));
    assert!(matches!(none, Err(ResolutionError::ConfigMissingFrames)));
}
