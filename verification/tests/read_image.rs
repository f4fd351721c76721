use random_image_server::ingest::{
    admit_image_path, admit_response, entry_from_response, is_image_path, FetchError,
    FetchErrorKind, ImageError, ImageErrorKind,
};
use random_image_server::cache::{CacheKey, CacheValue};
use random_image_server::{read_image_from_path, read_image_from_url};

fn unread() -> Result<Vec<u8>, String> {
    Err("No such file or directory (os error 2)".to_string())
}

#[test]
fn test_read_image_from_path_success() {
    let image_path = "/tmp/image_test/test.jpg";
    let test_data = vec![0xFF, 0xD8, 0xFF]; // JPEG header

    let result = read_image_from_path(image_path, true, Ok(test_data.clone()));
    assert!(result.is_ok());

    let cache_value = result.unwrap();
    assert_eq!(cache_value.data, test_data);
    assert!(cache_value.content_type.contains("image/jpeg"));
}

#[test]
fn test_read_image_from_path_file_not_found() {
    let nonexistent_path = "/nonexistent/image.jpg";
    let result = read_image_from_path(nonexistent_path, false, unread());
    assert!(result.is_err());
    assert!(result.unwrap_err().message().contains("does not exist"));
}

#[test]
fn test_read_image_from_path_no_extension() {
    let image_path = "/tmp/image_test/test_no_ext";

    let result = read_image_from_path(image_path, true, Ok(b"test data".to_vec()));
    assert!(result.is_err());
    assert!(result.unwrap_err().message().contains("no extension"));
}

#[test]
fn test_read_image_from_path_unsupported_extension() {
    let image_path = "/tmp/image_test/test.txt";

    let result = read_image_from_path(image_path, true, Ok(b"test data".to_vec()));
    assert!(result.is_err());
    assert!(result
        .unwrap_err()
        .message()
        .contains("Unsupported image file extension"));
}

#[test]
fn test_read_image_from_path_directory() {
    let result = read_image_from_path("/tmp/image_test", false, unread());
    assert!(result.is_err());
    assert!(result.unwrap_err().message().contains("does not exist"));
}

#[test]
fn test_read_image_from_path_different_extensions() {
    let test_data = vec![1, 2, 3, 4];

    // Test .jpg
    let result = read_image_from_path("/tmp/image_test/test.jpg", true, Ok(test_data.clone()));
    assert!(result.is_ok());

    // Test .jpeg
    let result = read_image_from_path("/tmp/image_test/test.jpeg", true, Ok(test_data.clone()));
    assert!(result.is_ok());

    // Test .png
    let result = read_image_from_path("/tmp/image_test/test.png", true, Ok(test_data));
    assert!(result.is_ok());
}

#[test]
fn read_image_from_path_content_types() {
    let image = |path: &str| read_image_from_path(path, true, Ok(vec![1])).unwrap();
    assert_eq!(image("/a/b.jpg").content_type, "image/jpeg");
    assert_eq!(image("/a/b.jpeg").content_type, "image/jpeg");
    assert_eq!(image("/a/b.png").content_type, "image/png");
    assert_eq!(image("/a/b.webp").content_type, "image/webp");
    assert_eq!(image("/a/b.gif").content_type, "image/gif");
    assert_eq!(image("relative.tar.png").content_type, "image/png");
}

#[test]
fn read_image_from_path_errors() {
    assert_eq!(
        read_image_from_path("/a/b.jpg", false, Ok(vec![1])),
        Err(ImageError {
            kind: ImageErrorKind::Missing,
            detail: "/a/b.jpg".to_string(),
        })
    );
    assert_eq!(
        read_image_from_path("/a/b", true, Ok(vec![1])),
        Err(ImageError {
            kind: ImageErrorKind::NoExtension,
            detail: "/a/b".to_string(),
        })
    );
    // the allow-list is exact: upper case is another extension
    assert_eq!(
        read_image_from_path("/a/b.JPG", true, Ok(vec![1])),
        Err(ImageError {
            kind: ImageErrorKind::Unsupported,
            detail: "/a/b.JPG".to_string(),
        })
    );
    assert_eq!(
        read_image_from_path("/a/b.jpg", true, Err("permission denied".to_string())),
        Err(ImageError {
            kind: ImageErrorKind::Unreadable,
            detail: "permission denied".to_string(),
        })
    );
    // the extension is looked at before the read
    assert_eq!(
        read_image_from_path("/a/b.txt", true, Err("permission denied".to_string()))
            .unwrap_err()
            .kind,
        ImageErrorKind::Unsupported
    );
}

#[test]
fn image_error_messages() {
    let message = |kind: ImageErrorKind, detail: &str| {
        ImageError {
            kind,
            detail: detail.to_string(),
        }
        .message()
    };
    assert_eq!(
        message(ImageErrorKind::Missing, "/a.jpg"),
        "Image file does not exist: /a.jpg"
    );
    assert_eq!(
        message(ImageErrorKind::NoExtension, "/a"),
        "Image file has no extension: /a"
    );
    assert_eq!(
        message(ImageErrorKind::Unsupported, "/a.txt"),
        "Unsupported image file extension: /a.txt"
    );
    assert_eq!(
        message(ImageErrorKind::Unreadable, "denied"),
        "Failed to read image file: denied"
    );
    assert_eq!(
        message(ImageErrorKind::UnknownContentType, "/a.jpg"),
        "Failed to determine content type for image file: /a.jpg"
    );
}

#[test]
fn admit_image_path_looks_at_the_file_and_the_extension() {
    assert_eq!(admit_image_path("/a/b.png", true), Ok(()));
    assert_eq!(
        admit_image_path("/a/b.png", false).unwrap_err().kind,
        ImageErrorKind::Missing
    );
    assert_eq!(
        admit_image_path("/a/png", true).unwrap_err().kind,
        ImageErrorKind::NoExtension
    );
    assert_eq!(
        admit_image_path("/a/b.svg", true).unwrap_err().kind,
        ImageErrorKind::Unsupported
    );
}

#[test]
fn image_paths_go_by_the_extension_of_the_file_name() {
    assert!(is_image_path("/a/b.jpg"));
    assert!(is_image_path("b.gif"));
    assert!(is_image_path("/a/b.txt.webp"));
    assert!(is_image_path("/a/b.jpg/"));
    assert!(!is_image_path("/a.jpg/b"));
    assert!(!is_image_path("/a/.jpg"));
    assert!(!is_image_path("/a/b.jpg.bak"));
    assert!(!is_image_path("/a/b."));
    assert!(!is_image_path(""));
    assert!(!is_image_path("/a/b.Png"));
}

#[test]
fn read_image_from_url_keeps_the_header_as_content_type() {
    assert_eq!(
        read_image_from_url(200, Some("image/png".to_string()), Ok(vec![1, 2])),
        Ok(CacheValue {
            data: vec![1, 2],
            content_type: "image/png".to_string(),
        })
    );
    assert!(read_image_from_url(299, Some("image/webp".to_string()), Ok(vec![])).is_ok());
    assert!(read_image_from_url(204, Some("jpg".to_string()), Ok(vec![])).is_ok());
    assert!(read_image_from_url(200, Some("a/b/gif".to_string()), Ok(vec![])).is_ok());
}

#[test]
fn read_image_from_url_errors() {
    let error = |kind: FetchErrorKind, status: u16, detail: &str| FetchError {
        kind,
        status,
        detail: detail.to_string(),
    };
    assert_eq!(
        read_image_from_url(404, Some("image/png".to_string()), Ok(vec![1])),
        Err(error(FetchErrorKind::Status, 404, ""))
    );
    assert_eq!(
        read_image_from_url(199, Some("image/png".to_string()), Ok(vec![1])),
        Err(error(FetchErrorKind::Status, 199, ""))
    );
    assert_eq!(
        read_image_from_url(300, Some("image/png".to_string()), Ok(vec![1])),
        Err(error(FetchErrorKind::Status, 300, ""))
    );
    assert_eq!(
        read_image_from_url(200, None, Ok(vec![1])),
        Err(error(FetchErrorKind::NoContentType, 200, ""))
    );
    assert_eq!(
        read_image_from_url(200, Some("text/html".to_string()), Ok(vec![1])),
        Err(error(FetchErrorKind::Unsupported, 200, "text/html"))
    );
    assert_eq!(
        read_image_from_url(
            200,
            Some("image/jpeg; charset=utf-8".to_string()),
            Ok(vec![1])
        ),
        Err(error(
            FetchErrorKind::Unsupported,
            200,
            "image/jpeg; charset=utf-8"
        ))
    );
    assert_eq!(
        read_image_from_url(200, Some("image/".to_string()), Ok(vec![1])),
        Err(error(FetchErrorKind::Unsupported, 200, "image/"))
    );
    assert_eq!(
        read_image_from_url(200, Some("image/PNG".to_string()), Ok(vec![1])),
        Err(error(FetchErrorKind::Unsupported, 200, "image/PNG"))
    );
    assert_eq!(
        read_image_from_url(
            200,
            Some("image/png".to_string()),
            Err("connection reset".to_string())
        ),
        Err(error(FetchErrorKind::Body, 200, "connection reset"))
    );
    // the status is looked at first, the header next, the body last
    assert_eq!(
        read_image_from_url(500, None, Err("x".to_string()))
            .unwrap_err()
            .kind,
        FetchErrorKind::Status
    );
    assert_eq!(
        read_image_from_url(200, None, Err("x".to_string()))
            .unwrap_err()
            .kind,
        FetchErrorKind::NoContentType
    );
}

#[test]
fn admit_response_before_the_body_is_read() {
    assert_eq!(admit_response(200, Some("image/gif")), Ok(()));
    assert_eq!(
        admit_response(200, None).unwrap_err().kind,
        FetchErrorKind::NoContentType
    );
    assert_eq!(
        admit_response(503, Some("image/gif")).unwrap_err().kind,
        FetchErrorKind::Status
    );
    assert_eq!(
        admit_response(200, Some("application/json"))
            .unwrap_err()
            .kind,
        FetchErrorKind::Unsupported
    );
}

#[test]
fn entries_of_responses_are_kept_under_the_url() {
    let (key, image) = entry_from_response(
        "https://example.com/image.jpg",
        200,
        Some("image/jpeg".to_string()),
        Ok(vec![9]),
    )
    .unwrap();
    assert_eq!(
        key,
        CacheKey::ImageUrl("https://example.com/image.jpg".to_string())
    );
    assert_eq!(image.data, vec![9]);
    assert_eq!(image.content_type, "image/jpeg");
    assert!(entry_from_response("https://example.com/image.jpg", 404, None, Ok(vec![])).is_err());
}
