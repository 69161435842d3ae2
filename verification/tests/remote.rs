use mural_client::{
    digest_url, extension_from_content_type, interval_url, status_is_success, wallpaper_url, Error,
};

#[test]
fn urls_follow_the_service_surface() {
    assert_eq!(
        digest_url("http://localhost:46666", "default"),
        "http://localhost:46666/api/pool/default/digest"
    );
    assert_eq!(
        wallpaper_url("http://localhost:46666", "default"),
        "http://localhost:46666/api/pool/default/wallpaper"
    );
    assert_eq!(interval_url("http://localhost:46666"), "http://localhost:46666/api/interval");
    assert_eq!(digest_url("https://pool.example", "office"), "https://pool.example/api/pool/office/digest");
}

#[test]
fn only_the_two_hundreds_count_as_success() {
    assert!(status_is_success(200));
    assert!(status_is_success(204));
    assert!(status_is_success(299));
    assert!(!status_is_success(199));
    assert!(!status_is_success(300));
    assert!(!status_is_success(404));
    assert!(!status_is_success(500));
}

#[test]
fn the_extension_is_the_subtype_after_the_slash() {
    assert_eq!(extension_from_content_type(Some(&"image/png".to_string())), Ok("png".to_string()));
    assert_eq!(
        extension_from_content_type(Some(&"image/svg+xml".to_string())),
        Ok("svg+xml".to_string())
    );
}

#[test]
fn a_missing_or_malformed_content_type_is_a_protocol_failure() {
    assert!(matches!(
        extension_from_content_type(None),
        Err(Error::ProtocolFailure(_))
    ));
    assert!(matches!(
        extension_from_content_type(Some(&"imagepng".to_string())),
        Err(Error::ProtocolFailure(_))
    ));
    assert!(matches!(
        extension_from_content_type(Some(&"image/".to_string())),
        Err(Error::ProtocolFailure(_))
    ));
    assert!(matches!(
        extension_from_content_type(Some(&"".to_string())),
        Err(Error::ProtocolFailure(_))
    ));
}
