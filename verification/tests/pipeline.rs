use meta_fetcher::page_metadata;
use meta_fetcher::FetchError;
use meta_fetcher::Metadata;
use meta_fetcher::PageOutcome;

#[test]
fn test_page_body_extracts_metadata() {
    let html = "<html><head>\
        <meta property=\"og:title\" content=\"Example Domain\">\
        </head><body></body></html>";
    let expected = Metadata::new(Some("Example Domain".to_string()), None, None);
    let actual = page_metadata(PageOutcome::Body(html.to_string())).unwrap();
    assert_eq!(expected, actual);
}

#[test]
fn test_transport_failure_is_network_error() {
    let result = page_metadata(PageOutcome::TransportFailure);
    assert_eq!(result, Err(FetchError::NetworkError));
}

#[test]
fn test_bad_status_keeps_the_status() {
    let result = page_metadata(PageOutcome::BadStatus(404));
    assert_eq!(result, Err(FetchError::HttpError(404)));
}

#[test]
fn test_undecodable_body_is_decode_error() {
    let result = page_metadata(PageOutcome::Undecodable);
    assert_eq!(result, Err(FetchError::DecodeError));
}

#[test]
fn test_metadata_new_keeps_fields() {
    let m = Metadata::new(
        Some("t".to_string()),
        Some("d".to_string()),
        Some("i".to_string()),
    );
    assert_eq!(m.title, Some("t".to_string()));
    assert_eq!(m.description, Some("d".to_string()));
    assert_eq!(m.image, Some("i".to_string()));
}
