use aeternum::image::Image;
use aeternum::job::build_output_path;
use aeternum::options::Model;
use aeternum::options::OutputExt;
use aeternum::options::UpscaleOptions;

fn model(name: &str) -> Model {
    Model {
        path: format!("/usr/lib/upscayl/models/{}.bin", name),
        folder: "/usr/lib/upscayl/models".to_string(),
        name: name.to_string(),
    }
}

fn image(path: &str) -> Image {
    Image { path: path.to_string(), width: 500, height: 400 }
}

fn options(name: &str, scale: i32, compression: i32) -> UpscaleOptions {
    UpscaleOptions {
        scale,
        compression,
        model: Some(model(name)),
        output_ext: OutputExt::PNG,
        output: None,
    }
}

#[test]
fn output_path_next_to_source_image() {
    let img = image("photos/cat.png");
    let opts = options("realesrgan-x4plus", 2, 10);
    let out = build_output_path(&img, &opts);
    assert_eq!(out, "photos/cat_realesrgan-x4plus_x2.png");
}

#[test]
fn output_path_for_bare_file_name() {
    let img = image("cat.png");
    let opts = options("realesrgan-x4plus", 2, 10);
    let out = build_output_path(&img, &opts);
    assert_eq!(out, "cat_realesrgan-x4plus_x2.png");
}

#[test]
fn output_path_uses_explicit_output_folder() {
    let img = image("photos/cat.png");
    let mut opts = options("remacri", 4, 0);
    opts.output = Some("elsewhere/results".to_string());
    let out = build_output_path(&img, &opts);
    assert_eq!(out, "elsewhere/results/cat_remacri_x4.png");
}

#[test]
fn output_path_keeps_trailing_separator_of_output_folder() {
    let img = image("photos/cat.png");
    let mut opts = options("remacri", 4, 0);
    opts.output = Some("elsewhere/".to_string());
    let out = build_output_path(&img, &opts);
    assert_eq!(out, "elsewhere/cat_remacri_x4.png");
}

#[test]
fn output_path_respects_output_extension() {
    let img = image("photos/cat.png");
    let mut opts = options("remacri", 4, 0);
    opts.output_ext = OutputExt::WebP;
    assert_eq!(build_output_path(&img, &opts), "photos/cat_remacri_x4.webp");
    opts.output_ext = OutputExt::JPG;
    assert_eq!(build_output_path(&img, &opts), "photos/cat_remacri_x4.jpg");
}

#[test]
fn output_path_is_deterministic() {
    let img = image("photos/cat.png");
    let opts = options("ultrasharp", 8, 50);
    let first = build_output_path(&img, &opts);
    let second = build_output_path(&img, &opts);
    assert_eq!(first, second);
}

#[test]
fn output_path_changes_with_scale() {
    let img = image("photos/cat.png");
    let small = options("ultrasharp", 2, 0);
    let large = options("ultrasharp", 12, 0);
    assert_ne!(build_output_path(&img, &small), build_output_path(&img, &large));
}

#[test]
fn output_path_changes_with_model_name() {
    let img = image("photos/cat.png");
    let one = options("ultrasharp", 4, 0);
    let other = options("remacri", 4, 0);
    assert_ne!(build_output_path(&img, &one), build_output_path(&img, &other));
}

#[test]
fn output_path_keeps_multi_dot_stems() {
    let img = image("dir/archive.backup.png");
    let opts = options("remacri", 4, 0);
    assert_eq!(build_output_path(&img, &opts), "dir/archive.backup_remacri_x4.png");
}

#[test]
fn output_path_next_to_a_backslash_separated_image() {
    let img = image("C:\\pics\\cat.png");
    let opts = options("remacri", 4, 0);
    assert_eq!(build_output_path(&img, &opts), "C:\\pics\\cat_remacri_x4.png");
}

#[test]
fn create_output_stays_next_to_the_image() {
    let img = image("a/b/cat.jpeg");
    let opts = options("remacri", 16, 100);
    assert_eq!(img.create_output(&opts), "a/b/cat_remacri_x16.png");
}
