use titanium::error::RenderError;
use titanium::validator::validate_url;

#[test]
fn test_validate_url_valid() {
    let url = "https://google.com";
    let result = validate_url(url);
    assert!(result.is_ok());
}

#[test]
fn test_validate_url_invalid() {
    let url = "not a url";
    let result = validate_url(url);
    assert!(result.is_err());
}

#[test]
fn validate_returns_the_serialized_url() {
    assert_eq!(validate_url("https://google.com").unwrap().as_str(), "https://google.com/");
    assert_eq!(
        validate_url("HTTPS://Example.COM/a/../b?q=1#f").unwrap().as_str(),
        "https://example.com/b?q=1#f"
    );
    assert_eq!(
        validate_url("  http://example.com/x y ").unwrap().as_str(),
        "http://example.com/x%20y"
    );
}

#[test]
fn validate_keeps_a_serialized_url_as_it_is() {
    let first = validate_url("https://example.com/a?b=c").unwrap();
    let second = validate_url(first.as_str()).unwrap();
    assert_eq!(first, second);
}

#[test]
fn validate_rejects_text_without_a_scheme() {
    assert_eq!(validate_url("not a url"), Err(RenderError::InvalidUrl));
    assert_eq!(validate_url(""), Err(RenderError::InvalidUrl));
    assert_eq!(validate_url("/relative/path"), Err(RenderError::InvalidUrl));
    assert_eq!(validate_url("example.com/index.html"), Err(RenderError::InvalidUrl));
    assert_eq!(validate_url("//example.com/"), Err(RenderError::InvalidUrl));
}

#[test]
fn validate_rejects_malformed_urls() {
    assert_eq!(validate_url("http://"), Err(RenderError::InvalidUrl));
    assert_eq!(validate_url("http://exa mple.com/"), Err(RenderError::InvalidUrl));
    assert_eq!(validate_url("http://example.com:99999/"), Err(RenderError::InvalidUrl));
    assert_eq!(validate_url("1http://example.com/"), Err(RenderError::InvalidUrl));
}

#[test]
fn validate_does_not_restrict_the_scheme() {
    assert_eq!(validate_url("ftp://example.com/file").unwrap().as_str(), "ftp://example.com/file");
    assert_eq!(validate_url("file:///etc/hosts").unwrap().as_str(), "file:///etc/hosts");
    assert_eq!(validate_url("mailto:someone@example.com").unwrap().as_str(), "mailto:someone@example.com");
}
