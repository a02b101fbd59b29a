use aeternum::config::Config;
use aeternum::config::KeyBinds;
use aeternum::config::Misc;
use aeternum::config::about_box_default;
use aeternum::config::enable_default;
use aeternum::decimal::u64_to_string;
use aeternum::error::Error;
use aeternum::image::Image;
use aeternum::image::extension_allowed;
use aeternum::options::OutputExt;
use aeternum::options::UpscaleOptions;
use aeternum::paths;

#[test]
fn decimal_rendering_matches_usual_notation() {
    assert_eq!(u64_to_string(0), "0");
    assert_eq!(u64_to_string(7), "7");
    assert_eq!(u64_to_string(10), "10");
    assert_eq!(u64_to_string(42), "42");
    assert_eq!(u64_to_string(100), "100");
    assert_eq!(u64_to_string(65535), "65535");
}

#[test]
fn path_helpers_split_as_documented() {
    assert_eq!(paths::file_name("a/b/cat.png"), "cat.png");
    assert_eq!(paths::file_name("cat.png"), "cat.png");
    assert_eq!(paths::dir_prefix("a/b/cat.png"), "a/b/");
    assert_eq!(paths::dir_prefix("cat.png"), "");
    assert_eq!(paths::file_stem("cat.png"), "cat");
    assert_eq!(paths::file_stem("archive.tar.gz"), "archive.tar");
    assert_eq!(paths::file_stem(".hidden"), ".hidden");
    assert_eq!(paths::extension("cat.png"), Some("png".to_string()));
    assert_eq!(paths::extension("cat"), None);
    assert_eq!(paths::extension(".hidden"), None);
    assert_eq!(paths::join("a/b", "c.png"), "a/b/c.png");
    assert_eq!(paths::join("a/b/", "c.png"), "a/b/c.png");
    assert_eq!(paths::join("", "c.png"), "c.png");
    assert!(paths::contains_sub("thing-video", "video"));
    assert!(!paths::contains_sub("thing", "video"));
}

#[test]
fn path_helpers_accept_backslash_separators() {
    assert_eq!(paths::file_name("C:\\pics\\cat.png"), "cat.png");
    assert_eq!(paths::dir_prefix("C:\\pics\\cat.png"), "C:\\pics\\");
    assert_eq!(paths::join("C:\\pics\\", "out.png"), "C:\\pics\\out.png");
}

#[test]
fn options_default_values() {
    let options = UpscaleOptions::default();
    assert_eq!(options.scale, 4);
    assert_eq!(options.compression, 0);
    assert!(options.model.is_none());
    assert!(options.output.is_none());
    assert_eq!(options.output_ext, OutputExt::PNG);
}

#[test]
fn output_ext_labels_and_extensions() {
    assert_eq!(OutputExt::WebP.ext(), "webp");
    assert_eq!(OutputExt::PNG.ext(), "png");
    assert_eq!(OutputExt::JPG.ext(), "jpg");
    assert_eq!(OutputExt::WebP.label(), "WebP");
    assert_eq!(OutputExt::PNG.label(), "PNG");
    assert_eq!(OutputExt::JPG.label(), "JPG");
    assert_eq!(OutputExt::all(), vec![OutputExt::WebP, OutputExt::PNG, OutputExt::JPG]);
}

#[test]
fn config_default_values() {
    let config = Config::default();
    assert_eq!(config.version, 0);
    assert_eq!(config.keybinds.about_box, "A");
    assert!(config.misc.enable_custom_folder);
    assert_eq!(KeyBinds::default().about_box, about_box_default());
    assert_eq!(Misc::default().enable_custom_folder, enable_default());
}

#[test]
fn allowed_extensions_go_by_containment() {
    assert!(extension_allowed("png"));
    assert!(extension_allowed("jpeg"));
    assert!(extension_allowed("jpg"));
    assert!(extension_allowed("webp"));
    assert!(extension_allowed("apng"));
    assert!(!extension_allowed("gif"));
    assert!(!extension_allowed("tiff"));
}

#[test]
fn unsupported_extension_is_rejected() {
    match Image::from_path("somewhere/cat.gif".to_string()) {
        Err(Error::ImageFormatNotSupported(_, format)) => assert_eq!(format, "gif"),
        _ => panic!("a gif must be rejected as unsupported"),
    }
}

#[test]
fn missing_extension_is_rejected() {
    match Image::from_path("somewhere/cat".to_string()) {
        Err(Error::ImageFormatNotSupported(_, format)) => assert_eq!(format, ""),
        _ => panic!("a path without extension must be rejected"),
    }
}

#[test]
fn upper_case_extension_is_lowered_before_the_check() {
    match Image::from_path("nowhere/cat.PNG".to_string()) {
        Err(Error::FailedToInitImage(_, path, reason)) => {
            assert_eq!(path, "nowhere/cat.PNG");
            assert_eq!(reason, "Failed to get image size.");
        },
        _ => panic!("an upper-case png extension must pass the format check"),
    }
}
