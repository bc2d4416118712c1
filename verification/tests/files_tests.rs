use tunno_sync::files::{
    content_type_for_extension, extension_of, serve_decision, status_for, ServeOutcome,
};

#[test]
fn extension_table_maps_known_types() {
    assert_eq!(content_type_for_extension("mp3"), "audio/mpeg");
    assert_eq!(content_type_for_extension("m4a"), "audio/mp4");
    assert_eq!(content_type_for_extension("aac"), "audio/mp4");
    assert_eq!(content_type_for_extension("ogg"), "audio/ogg");
    assert_eq!(content_type_for_extension("oga"), "audio/ogg");
    assert_eq!(content_type_for_extension("flac"), "audio/flac");
    assert_eq!(content_type_for_extension("wav"), "audio/wav");
    assert_eq!(content_type_for_extension("wma"), "audio/x-ms-wma");
    assert_eq!(content_type_for_extension("opus"), "audio/opus");
    assert_eq!(content_type_for_extension("webm"), "audio/webm");
    assert_eq!(content_type_for_extension("jpg"), "image/jpeg");
    assert_eq!(content_type_for_extension("jpeg"), "image/jpeg");
    assert_eq!(content_type_for_extension("png"), "image/png");
    assert_eq!(content_type_for_extension("webp"), "image/webp");
}

#[test]
fn unknown_extension_maps_to_generic_binary() {
    assert_eq!(content_type_for_extension("xyz"), "application/octet-stream");
    assert_eq!(content_type_for_extension(""), "application/octet-stream");
    assert_eq!(content_type_for_extension("MP3"), "application/octet-stream");
}

#[test]
fn extension_is_taken_after_the_last_dot() {
    assert_eq!(extension_of("music/song.mp3"), "mp3");
    assert_eq!(extension_of("archive.tar.gz"), "gz");
    assert_eq!(extension_of("noext"), "");
    assert_eq!(extension_of(".bashrc"), "");
    assert_eq!(extension_of("dir.d/noext"), "");
    assert_eq!(extension_of("dir/.hidden"), "");
}

#[test]
fn present_file_is_served_with_its_content_type() {
    let r = serve_decision(Ok(Some("media/tune.mp3".to_string())), true);
    match &r {
        ServeOutcome::Serve(path, ct) => {
            assert_eq!(path, "media/tune.mp3");
            assert_eq!(ct, "audio/mpeg");
        }
        _ => panic!("expected a served file"),
    }
    assert_eq!(status_for(&r), 200);
}

#[test]
fn png_thumbnail_gets_image_content_type() {
    let r = serve_decision(Ok(Some("thumbs/cover.png".to_string())), true);
    match &r {
        ServeOutcome::Serve(_, ct) => assert_eq!(ct, "image/png"),
        _ => panic!("expected a served file"),
    }
}

#[test]
fn unknown_extension_served_as_generic_binary() {
    let r = serve_decision(Ok(Some("media/blob.dat".to_string())), true);
    match &r {
        ServeOutcome::Serve(_, ct) => assert_eq!(ct, "application/octet-stream"),
        _ => panic!("expected a served file"),
    }
}

#[test]
fn resolved_but_absent_file_is_not_found() {
    let r = serve_decision(Ok(Some("media/tune.mp3".to_string())), false);
    assert!(matches!(r, ServeOutcome::NotFound));
    assert_eq!(status_for(&r), 404);
}

#[test]
fn unknown_fingerprint_is_not_found() {
    let r = serve_decision(Ok(None), true);
    assert!(matches!(r, ServeOutcome::NotFound));
    assert_eq!(status_for(&r), 404);
}

#[test]
fn store_failure_is_a_server_error() {
    let r = serve_decision(Err("database disk image is malformed".to_string()), true);
    match &r {
        ServeOutcome::StoreError(m) => assert_eq!(m, "database disk image is malformed"),
        _ => panic!("expected a store error"),
    }
    assert_eq!(status_for(&r), 500);
}
