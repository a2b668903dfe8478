use image_processor::args::{configure_parser, parse_arguments, resolve_config, ArgError};
use image_processor::filter::ImageFilter;
use image_processor::output::save_outcome_message;
use image_processor::path::{get_absolute_filepath, verify_filepath, PathError};

fn argv(parts: &[&str]) -> Vec<String> {
    parts.iter().map(|s| s.to_string()).collect()
}

fn configured_parser() -> argparse_rs::ArgParser {
    let mut parser = argparse_rs::ArgParser::new("image-processor".to_string());
    configure_parser(&mut parser);
    parser
}

#[test]
fn filter_round_trip_grayscale() {
    let f = ImageFilter::from_str("grayscale").unwrap();
    assert_eq!(f, ImageFilter::GrayScale);
    assert_eq!(f.display(), "grayscale");
}

#[test]
fn filter_round_trip_blur() {
    let f = ImageFilter::from_str("blur").unwrap();
    assert_eq!(f, ImageFilter::Blur);
    assert_eq!(f.display(), "blur");
}

#[test]
fn filter_rejects_unknown_names() {
    assert!(ImageFilter::from_str("sepia").is_err());
    assert!(ImageFilter::from_str("").is_err());
    assert!(ImageFilter::from_str("Grayscale").is_err());
    assert!(ImageFilter::from_str("blur ").is_err());
    assert!(ImageFilter::from_str("gray scale").is_err());
}

#[test]
fn parse_defaults_to_grayscale() {
    let args = argv(&["./image-processor", "--file", "in.png"]);
    let parsed = parse_arguments(&args, &configured_parser()).unwrap();
    assert_eq!(parsed.filter, ImageFilter::GrayScale);
    assert_eq!(parsed.filepath, "in.png");
}

#[test]
fn parse_accepts_short_flags() {
    let args = argv(&["./image-processor", "-i", "in.png", "-f", "blur"]);
    let parsed = parse_arguments(&args, &configured_parser()).unwrap();
    assert_eq!(parsed.filter, ImageFilter::Blur);
    assert_eq!(parsed.filepath, "in.png");
}

#[test]
fn parse_accepts_long_flags() {
    let args = argv(&["./image-processor", "--filter", "blur", "--file", "a/b.png"]);
    let parsed = parse_arguments(&args, &configured_parser()).unwrap();
    assert_eq!(parsed.filter, ImageFilter::Blur);
    assert_eq!(parsed.filepath, "a/b.png");
}

#[test]
fn parse_fails_without_file_flag() {
    let args = argv(&["./image-processor", "--filter", "blur"]);
    let err = parse_arguments(&args, &configured_parser()).unwrap_err();
    assert!(matches!(err, ArgError::ParseFailed(_)));
}

#[test]
fn parse_fails_on_unknown_filter() {
    let args = argv(&["./image-processor", "--file", "in.png", "--filter", "sepia"]);
    let err = parse_arguments(&args, &configured_parser()).unwrap_err();
    assert_eq!(err, ArgError::BadFilter);
    assert_eq!(err.message(), "Bad filter specified");
}

#[test]
fn resolve_requires_a_file_value() {
    let err = resolve_config(None, None).unwrap_err();
    assert_eq!(err, ArgError::MissingFile);
}

#[test]
fn resolve_defaults_the_filter() {
    let config = resolve_config(None, Some("pic.png".to_string())).unwrap();
    assert_eq!(config.filter, ImageFilter::GrayScale);
    assert_eq!(config.filepath, "pic.png");
}

#[test]
fn resolve_takes_the_given_filter() {
    let config = resolve_config(Some("blur".to_string()), Some("pic.png".to_string())).unwrap();
    assert_eq!(config.filter, ImageFilter::Blur);
}

#[test]
fn resolve_rejects_an_unknown_filter() {
    let err = resolve_config(Some("mosaic".to_string()), Some("pic.png".to_string())).unwrap_err();
    assert_eq!(err, ArgError::BadFilter);
}

#[test]
fn path_is_resolved_against_the_working_directory() {
    let abs = get_absolute_filepath("/home/user", "pic.png");
    assert_eq!(abs, "/home/user/pic.png");
}

#[test]
fn absolute_input_path_is_still_prefixed() {
    let abs = get_absolute_filepath("/cwd", "/elsewhere/pic.png");
    assert_eq!(abs, "/cwd//elsewhere/pic.png");
}

#[test]
fn existing_regular_file_is_accepted() {
    assert!(verify_filepath(true, true).is_ok());
}

#[test]
fn directory_is_rejected_as_input() {
    let err = verify_filepath(true, false).unwrap_err();
    assert_eq!(err, PathError::NotAFile);
    assert_eq!(err.message("/tmp"), "Must specify a valid file");
}

#[test]
fn inaccessible_path_is_rejected() {
    let err = verify_filepath(false, false).unwrap_err();
    assert_eq!(err, PathError::CannotAccess);
    assert_eq!(err.message("/no/such.png"), "Cannot access file /no/such.png");
}

#[test]
fn save_outcome_lines() {
    assert_eq!(save_outcome_message(true), "File saved");
    assert_eq!(save_outcome_message(false), "Couldn't save file");
}

#[test]
fn parse_rejects_a_lone_wide_character_argument() {
    let args = argv(&["./image-processor", "--file", "\u{20ac}"]);
    let err = parse_arguments(&args, &configured_parser()).unwrap_err();
    assert!(matches!(err, ArgError::ParseFailed(_)));
}

#[test]
fn parse_accepts_a_multi_character_non_ascii_path() {
    let args = argv(&["./image-processor", "--file", "h\u{e9}llo.png"]);
    let parsed = parse_arguments(&args, &configured_parser()).unwrap();
    assert_eq!(parsed.filepath, "h\u{e9}llo.png");
}

#[test]
fn parse_accepts_a_lone_two_byte_character_path() {
    let args = argv(&["./image-processor", "-i", "\u{df}"]);
    let parsed = parse_arguments(&args, &configured_parser()).unwrap();
    assert_eq!(parsed.filepath, "\u{df}");
    assert_eq!(parsed.filter, ImageFilter::GrayScale);
}
