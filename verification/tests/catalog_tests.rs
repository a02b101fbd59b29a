use aeternum::catalog::ScanEntry;
use aeternum::catalog::models_from_entries;

fn entry(path: &str, has_param: bool) -> ScanEntry {
    ScanEntry { path: path.to_string(), has_param }
}

#[test]
fn discovery_returns_one_model_per_valid_pair() {
    let entries = vec![
        entry("/usr/lib/upscayl/models/realesrgan-x4plus.bin", true),
        entry("/usr/lib/upscayl/models/weights-only.bin", false),
        entry("/usr/lib/upscayl/models/ultrasharp.bin", true),
        entry("/usr/lib/upscayl/models/another-orphan.bin", false),
        entry("/usr/lib/upscayl/models/remacri.bin", true),
    ];
    let models = models_from_entries("/usr/lib/upscayl/models", &entries);
    assert_eq!(models.len(), 3);
    assert_eq!(models[0].name, "realesrgan-x4plus");
    assert_eq!(models[1].name, "ultrasharp");
    assert_eq!(models[2].name, "remacri");
}

#[test]
fn discovery_names_models_after_their_file_stem() {
    let entries = vec![entry("some/dir/model-a.v2.bin", true)];
    let models = models_from_entries("some/dir", &entries);
    assert_eq!(models.len(), 1);
    assert_eq!(models[0].name, "model-a.v2");
    assert_eq!(models[0].folder, "some/dir");
    assert_eq!(models[0].path, "some/dir/model-a.v2.bin");
}

#[test]
fn discovery_excludes_video_models() {
    let entries = vec![
        entry("models/thing-video.bin", true),
        entry("models/thing.bin", true),
    ];
    let models = models_from_entries("models", &entries);
    assert_eq!(models.len(), 1);
    assert_eq!(models[0].name, "thing");
}

#[test]
fn discovery_of_nothing_is_empty() {
    let entries: Vec<ScanEntry> = Vec::new();
    let models = models_from_entries("anywhere", &entries);
    assert!(models.is_empty());
}

#[test]
fn discovery_keeps_duplicate_names_across_folders() {
    let first = models_from_entries("user", &vec![entry("user/shared.bin", true)]);
    let second = models_from_entries("bundled", &vec![entry("bundled/shared.bin", true)]);
    assert_eq!(first[0].name, second[0].name);
    assert_ne!(first[0].folder, second[0].folder);
}
