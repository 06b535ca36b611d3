use applesauce::paths::{artifact_file_name, join_path, storage_dir};

#[test]
fn join_inserts_one_separator() {
    assert_eq!(join_path("/a/b", "x.wav"), "/a/b/x.wav");
    assert_eq!(join_path("/a/b/", "x.wav"), "/a/b/x.wav");
    assert_eq!(join_path("C:\\Users\\me\\", "x.wav"), "C:\\Users\\me\\x.wav");
    assert_eq!(join_path("", "x.wav"), "x.wav");
}

#[test]
fn artifact_name_is_id_with_wav_extension() {
    assert_eq!(artifact_file_name("sess-42"), "sess-42.wav");
}

#[test]
fn storage_dir_prefers_downloads() {
    let d = storage_dir(Some("/home/u/Downloads".to_string()), "/tmp");
    assert_eq!(d, "/home/u/Downloads/ApplesauceCacheNative");
}

#[test]
fn storage_dir_falls_back_to_temp() {
    assert_eq!(storage_dir(None, "/tmp"), "/tmp/ApplesauceCacheNative");
    assert_eq!(storage_dir(None, "/tmp/"), "/tmp/ApplesauceCacheNative");
}

#[test]
fn storage_dir_resolution_is_stable() {
    let a = storage_dir(None, "/tmp");
    let b = storage_dir(None, "/tmp");
    assert_eq!(a, b);
    assert!(a.ends_with("ApplesauceCacheNative"));
    let c = storage_dir(Some("/x".to_string()), "/tmp");
    let d = storage_dir(Some("/x".to_string()), "/tmp");
    assert_eq!(c, d);
}
