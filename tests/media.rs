use time_for::media::{replace_extension, MediaFile};

fn clip(p: &str) -> MediaFile {
    MediaFile::new(p.to_string())
}

#[test]
fn derived_names_keep_directory_and_extension() {
    let m = clip("/tmp/time-for/query.webm");
    assert_eq!(m.with_text(), "/tmp/time-for/query_text.webm");
    assert_eq!(m.scaled(), "/tmp/time-for/query_scaled.webm");
    assert_eq!(m.base(), "/tmp/time-for/query.webm");
}

#[test]
fn missing_extension_defaults_to_webm() {
    let m = clip("work/clip");
    assert_eq!(m.with_text(), "work/clip_text.webm");
    assert_eq!(m.scaled(), "work/clip_scaled.webm");
}

#[test]
fn leading_dot_is_not_an_extension() {
    assert_eq!(clip("a/.hidden").with_text(), "a/.hidden_text.webm");
}

#[test]
fn last_dot_splits_the_extension() {
    assert_eq!(clip("a.b/c.tar.gz").scaled(), "a.b/c.tar_scaled.gz");
}

#[test]
fn backslash_separates_directories() {
    assert_eq!(clip("C:\\Temp\\time-for\\look.mp4").with_text(), "C:\\Temp\\time-for\\look_text.mp4");
}

#[test]
fn plain_file_name_without_directory() {
    assert_eq!(clip("full.webm").scaled(), "full_scaled.webm");
}

#[test]
fn derived_paths_are_stable_and_distinct() {
    for p in ["dir/x.webm", "x", "", "d/", ".webm", "a.", "q/r.s/t"] {
        let m = clip(p);
        assert_eq!(m.with_text(), clip(p).with_text());
        assert_eq!(m.scaled(), clip(p).scaled());
        assert_ne!(m.with_text(), p);
        assert_ne!(m.scaled(), p);
        assert_ne!(m.with_text(), m.scaled());
    }
}

#[test]
fn extension_is_replaced() {
    assert_eq!(replace_extension("out/full.webm", "gif"), "out/full.gif");
    assert_eq!(replace_extension("out/full", "gif"), "out/full.gif");
}
