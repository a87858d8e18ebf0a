//! Tests of the pagination loop and the subcommand handlers.

use dredge::commands::catalog_handler;
use dredge::commands::check_handler;
use dredge::commands::show_handler;
use dredge::commands::tags_handler;
use dredge::commands::CatalogPage;
use dredge::commands::FsLayer;
use dredge::commands::TagsPage;
use dredge::config::Config;
use dredge::error::ApiError;
use dredge::paginate::Paginator;

fn bytes(s: &str) -> Vec<u8> {
    s.as_bytes().to_vec()
}

fn strings(names: Vec<&str>) -> Vec<String> {
    names.into_iter().map(String::from).collect()
}

/// Validate the happy path for the catalog handler: one page, all names
/// printed in order.
#[test]
fn test_catalog_handler() {
    let mut paginator: Paginator<CatalogPage> = Paginator::new(String::from("/v2/_catalog"));
    assert_eq!(paginator.pending_path().unwrap(), "/v2/_catalog");
    paginator
        .feed(
            CatalogPage { repositories: strings(vec!["image1", "image2", "image3"]) },
            None,
        )
        .unwrap();
    assert!(paginator.pending_path().is_none());

    let pages = paginator.into_pages();
    assert_eq!(catalog_handler(&pages), *"image1\nimage2\nimage3\n");
}

/// Validate the pagination of the catalog handler: the first response
/// names a second page in its Link header, and the combined list comes
/// out in request order.
#[test]
fn test_catalog_handler_with_pagination() {
    let path2 = "/v2/_catalog?n=2,last=image2";
    let mut paginator: Paginator<CatalogPage> = Paginator::new(String::from("/v2/_catalog"));

    let link = format!(r#"<{path2}>; rel=next"#);
    paginator
        .feed(
            CatalogPage { repositories: strings(vec!["image1", "image2"]) },
            Some(&bytes(&link)),
        )
        .unwrap();
    assert_eq!(paginator.pending_path().unwrap(), path2);

    paginator
        .feed(CatalogPage { repositories: strings(vec!["image3"]) }, None)
        .unwrap();
    assert!(paginator.pending_path().is_none());

    let pages = paginator.into_pages();
    assert_eq!(pages.len(), 2);
    assert_eq!(catalog_handler(&pages), *"image1\nimage2\nimage3\n");
}

/// Validate the happy path for the tags handler.
#[test]
fn test_tags_handler() {
    let mut paginator: Paginator<TagsPage> =
        Paginator::new(String::from("/v2/some_image/tags/list"));
    paginator
        .feed(TagsPage { tags: strings(vec!["tag1", "tag2", "tag3"]) }, None)
        .unwrap();
    assert!(paginator.pending_path().is_none());

    let pages = paginator.into_pages();
    assert_eq!(tags_handler(&pages), *"tag1\ntag2\ntag3\n");
}

/// Validate the pagination of the tags handler.
#[test]
fn test_tags_handler_with_pagination() {
    let path2 = "/v2/some_image/tags/list?n=2,last=tag2";
    let mut paginator: Paginator<TagsPage> =
        Paginator::new(String::from("/v2/some_image/tags/list"));

    let link = format!(r#"<{path2}>; rel=next"#);
    paginator
        .feed(TagsPage { tags: strings(vec!["tag1", "tag2"]) }, Some(&bytes(&link)))
        .unwrap();
    assert_eq!(paginator.pending_path().unwrap(), path2);

    paginator.feed(TagsPage { tags: strings(vec!["tag3"]) }, None).unwrap();
    assert!(paginator.pending_path().is_none());

    let pages = paginator.into_pages();
    assert_eq!(tags_handler(&pages), *"tag1\ntag2\ntag3\n");
}

/// A pagination loop stops after exactly as many responses as carry a
/// continuation link, plus the final one without.
#[test]
fn test_pagination_stops_without_link() {
    let mut paginator: Paginator<u32> = Paginator::new(String::from("/v2/_catalog"));
    let mut requests = 0;
    let responses: Vec<(u32, Option<Vec<u8>>)> = vec![
        (1, Some(bytes("</p2>; rel=next"))),
        (2, Some(bytes("</p3>; rel=next"))),
        (3, None),
    ];
    for (page, link) in responses {
        assert!(paginator.pending_path().is_some());
        requests += 1;
        paginator.feed(page, link.as_ref()).unwrap();
    }
    assert!(paginator.pending_path().is_none());
    assert_eq!(requests, 3);
    assert_eq!(paginator.into_pages(), vec![1, 2, 3]);
}

/// With a page limit set, pagination stops after that many pages even
/// while the server keeps announcing continuations.
#[test]
fn test_pagination_respects_page_limit() {
    let mut paginator: Paginator<u32> = Paginator::with_page_limit(String::from("/v2/_catalog"), 2);
    let link = bytes("</again>; rel=next");

    assert!(paginator.pending_path().is_some());
    paginator.feed(1, Some(&link)).unwrap();
    assert!(paginator.pending_path().is_some());
    paginator.feed(2, Some(&link)).unwrap();
    assert!(paginator.pending_path().is_none());
    assert_eq!(paginator.into_pages(), vec![1, 2]);
}

/// A Link header that does not read as text aborts pagination with a
/// header-decoding error.
#[test]
fn test_pagination_unreadable_link() {
    let mut paginator: Paginator<u32> = Paginator::new(String::from("/v2/_catalog"));
    let link = vec![0x9cu8, 0xff];
    let result = paginator.feed(7, Some(&link));
    assert!(matches!(result, Err(ApiError::ResponseHeaderParseError)));
    assert!(paginator.pending_path().is_none());
}

/// Validate the happy path for the check handler.
#[test]
fn test_check_handler() {
    let v = bytes("registry/2.0");
    assert_eq!(check_handler(200, Some(&v)).unwrap(), *"Ok\n");
}

/// Validate the check handler on a response missing the version header.
#[test]
fn test_check_handler_missing_api_version() {
    let result = check_handler(200, None);
    assert!(matches!(result, Err(ApiError::UnexpectedResponse(_))));
}

/// Validate the check handler on a response with an invalid API version.
#[test]
fn test_check_handler_invalid_api_version() {
    let v = bytes("registry/1.0");
    let result = check_handler(200, Some(&v));
    match result {
        Err(ApiError::UnsupportedVersion(s)) => assert_eq!(s, "registry/1.0"),
        other => panic!("expected UnsupportedVersion, got {other:?}"),
    }
}

/// Validate the happy path for the show handler: body fields are kept,
/// the digest comes from its header, and an unquoted etag falls back to
/// the digest.
#[test]
fn test_show_handler() {
    let digest = "sha256:0259571889ac87efbfca5b79a0abe9baf626d058ec5f9a5744bace2229d9ed50";
    let dh = bytes(digest);
    let eh = bytes(digest);
    let manifest = show_handler(
        String::from("foo"),
        String::from("latest"),
        String::from("amd64"),
        vec![
            FsLayer {
                blob_sum: String::from(
                    "sha256:a3ed95caeb02ffe68cdd9fd84406680ae93d633cb16422d00e8a7c22955b46d4",
                ),
            },
            FsLayer {
                blob_sum: String::from(
                    "sha256:7d97e254a0461b0a30b3f443f1daa0d620a3cc6ff4e2714cc1cfd96ace5b7a7e",
                ),
            },
        ],
        Some(&dh),
        Some(&eh),
    )
    .unwrap();

    assert_eq!(manifest.name, "foo");
    assert_eq!(manifest.tag, "latest");
    assert_eq!(manifest.architecture, "amd64");
    assert_eq!(manifest.fslayers.len(), 2);
    assert_eq!(manifest.digest, digest);
    assert_eq!(manifest.etag, digest);
}

/// An etag wrapped in the `'"` ... `"'` artifact is unwrapped.
#[test]
fn test_show_handler_quoted_etag() {
    let dh = bytes("sha256:aa");
    let eh = bytes("'\"sha256:bb\"'");
    let manifest = show_handler(
        String::from("foo"),
        String::from("latest"),
        String::from("amd64"),
        vec![],
        Some(&dh),
        Some(&eh),
    )
    .unwrap();
    assert_eq!(manifest.digest, "sha256:aa");
    assert_eq!(manifest.etag, "sha256:bb");
}

/// A response without the digest header fails the show handler.
#[test]
fn test_show_handler_missing_digest() {
    let eh = bytes("anything");
    let result = show_handler(
        String::from("foo"),
        String::from("latest"),
        String::from("amd64"),
        vec![],
        None,
        Some(&eh),
    );
    match result {
        Err(ApiError::UnexpectedResponse(m)) => {
            assert_eq!(m, "Missing docker-content-digest header")
        }
        other => panic!("expected UnexpectedResponse, got {other:?}"),
    }
}

/// A response without the etag header fails the show handler.
#[test]
fn test_show_handler_missing_etag() {
    let dh = bytes("sha256:aa");
    let result = show_handler(
        String::from("foo"),
        String::from("latest"),
        String::from("amd64"),
        vec![],
        Some(&dh),
        None,
    );
    match result {
        Err(ApiError::UnexpectedResponse(m)) => assert_eq!(m, "Missing etag header"),
        other => panic!("expected UnexpectedResponse, got {other:?}"),
    }
}

/// The default configuration points at a local registry.
#[test]
fn test_config_default() {
    let config = Config::default();
    assert_eq!(config.registry_url, "https://localhost:5000");
}
