use pixum::error::AppError;

const UNAVAILABLE: &str = "Information of the requested work could not be retrieved. The work might be deleted or have limited visibility.";

#[test]
fn invalid_url_is_not_found() {
    assert_eq!(AppError::InvalidUrl.status_code(), 404);
    assert_eq!(AppError::InvalidUrl.message(), "The requested URL is invalid.");
}

#[test]
fn unavailable_artwork_is_not_found_and_says_its_message() {
    let error = AppError::ArtworkUnavailable { message: String::from("deleted") };
    assert_eq!(error.status_code(), 404);
    assert_eq!(error.message(), "deleted");
}

#[test]
fn wrong_artwork_url_is_reported_like_an_unavailable_work() {
    assert_eq!(AppError::WrongArtworkUrl.status_code(), 404);
    assert_eq!(AppError::WrongArtworkUrl.message(), UNAVAILABLE);
}

#[test]
fn unreachable_server_is_a_bad_gateway() {
    assert_eq!(AppError::ServerUnreachable.status_code(), 502);
    assert_eq!(AppError::ServerUnreachable.message(), "Failed to get response from Pixiv server.");
}

#[test]
fn zero_query_is_a_bad_request() {
    assert_eq!(AppError::ZeroQuery.status_code(), 400);
    assert_eq!(
        AppError::ZeroQuery.message(),
        "The index of the requested image must be at least 1."
    );
}

#[test]
fn too_high_query_is_a_bad_request() {
    assert_eq!(AppError::TooHighQuery { max: 4 }.status_code(), 400);
}

#[test]
fn too_high_query_counts_several_images_in_the_plural() {
    assert_eq!(
        AppError::TooHighQuery { max: 4 }.message(),
        "The index of the requested image is too high; there are 4 images in this collection."
    );
    assert_eq!(
        AppError::TooHighQuery { max: 2 }.message(),
        "The index of the requested image is too high; there are 2 images in this collection."
    );
    assert_eq!(
        AppError::TooHighQuery { max: 65535 }.message(),
        "The index of the requested image is too high; there are 65535 images in this collection."
    );
}

#[test]
fn too_high_query_counts_one_image_in_the_singular() {
    assert_eq!(
        AppError::TooHighQuery { max: 1 }.message(),
        "The index of the requested image is too high; there is 1 image in this collection."
    );
}

#[test]
fn too_high_query_counts_no_images_in_the_plural() {
    assert_eq!(
        AppError::TooHighQuery { max: 0 }.message(),
        "The index of the requested image is too high; there are 0 images in this collection."
    );
}

#[test]
fn internal_is_a_server_error() {
    assert_eq!(AppError::Internal.status_code(), 500);
    assert_eq!(AppError::Internal.message(), "An internal server error occurred.");
}

#[test]
fn unavailable_forwards_the_reason() {
    assert_eq!(
        AppError::unavailable(Some("deleted")),
        AppError::ArtworkUnavailable { message: String::from("deleted") }
    );
}

#[test]
fn unavailable_without_reason_explains_in_general() {
    assert_eq!(
        AppError::unavailable(None),
        AppError::ArtworkUnavailable { message: String::from(UNAVAILABLE) }
    );
    assert_eq!(
        AppError::unavailable(Some("")),
        AppError::ArtworkUnavailable { message: String::from(UNAVAILABLE) }
    );
}

#[test]
fn each_kind_of_failure_has_its_class_of_status() {
    let not_found = [
        AppError::InvalidUrl,
        AppError::unavailable(None),
        AppError::WrongArtworkUrl,
    ];
    for error in not_found {
        assert_eq!(error.status_code(), 404);
    }
    for error in [AppError::ZeroQuery, AppError::TooHighQuery { max: 9 }] {
        assert_eq!(error.status_code(), 400);
    }
    assert_eq!(AppError::ServerUnreachable.status_code(), 502);
    assert_eq!(AppError::Internal.status_code(), 500);
}
