use aeternum::error::Error;

#[test]
fn file_not_found_message() {
    let e = Error::FileNotFound(None, "pics/cat.png".to_string(), "It was moved.".to_string());
    assert_eq!(e.message(), "The file path given 'pics/cat.png' does not exist! It was moved.");
}

#[test]
fn no_file_selected_message() {
    let e = Error::NoFileSelected(None);
    assert_eq!(e.message(), "No file was selected in the file dialogue!");
}

#[test]
fn failed_to_upscale_message() {
    let e = Error::FailedToUpscaleImage(None, "Out of memory.".to_string());
    assert_eq!(e.message(), "Failed to upscale the image. \n\nReason: Out of memory.");
}

#[test]
fn upscayl_not_in_path_message() {
    let e = Error::UpscaylNotInPath(Some("not found".to_string()));
    assert_eq!(
        e.message(),
        "upscayl-bin isn't in your path. Install it: https://github.com/upscayl/upscayl-ncnn"
    );
}

#[test]
fn models_folder_not_found_message() {
    let e = Error::ModelsFolderNotFound(None, "/usr/lib/upscayl/models".to_string());
    assert_eq!(e.message(), "Models folder not found: /usr/lib/upscayl/models");
}

#[test]
fn no_models_message() {
    let e = Error::NoModels(Some("Vector is empty.".to_string()), "/usr/lib/upscayl/models".to_string());
    assert_eq!(e.message(), "No models found in folder: '/usr/lib/upscayl/models'");
}

#[test]
fn failed_to_init_image_message_names_the_file_only() {
    let e = Error::FailedToInitImage(
        None,
        "deep/dir/cat.png".to_string(),
        "Failed to get image size.".to_string(),
    );
    assert_eq!(
        e.message(),
        "Failed to initialize the image (cat.png)! Reason: Failed to get image size."
    );
}

#[test]
fn image_format_not_supported_message() {
    let e = Error::ImageFormatNotSupported(None, "gif".to_string());
    assert_eq!(e.message(), "The image format 'gif' is not supported!");
}

#[test]
fn failed_to_get_current_executable_path_message() {
    let e = Error::FailedToGetCurrentExecutablePath(None);
    assert_eq!(e.message(), "Failed to get the current path where aeternum is located.");
}
