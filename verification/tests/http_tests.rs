use glowdoc::coordinator::{ArtifactUpdate, RebuildCoordinator};
use glowdoc::http::{
    artifact_response, content_type_for_extension, extension, get_content_type, route,
    static_response, HttpResponse, Route,
};

fn header<'a>(response: &'a HttpResponse, name: &str) -> Option<&'a str> {
    response.headers.iter().find(|h| h.name == name).map(|h| h.value.as_str())
}

fn asset(path: &str) -> String {
    match route(path) {
        Route::Asset { file_path } => file_path,
        Route::Artifact => panic!("{} is no asset", path),
    }
}

#[test]
fn paths_with_a_dot_or_the_asset_prefix_are_assets() {
    assert_eq!(asset("/style.css"), "docs/style.css");
    assert_eq!(asset("/docs/images/logo.png"), "docs/images/logo.png");
    assert_eq!(asset("/docs/README"), "docs/README");
    assert_eq!(asset("//favicon.ico"), "docs/favicon.ico");
    assert_eq!(asset("/docs/"), "docs/");
    assert_eq!(asset("/a.b/c"), "docs/a.b/c");
}

#[test]
fn other_paths_ask_for_the_artifact() {
    assert!(matches!(route("/"), Route::Artifact));
    assert!(matches!(route(""), Route::Artifact));
    assert!(matches!(route("/introduction/getting-started"), Route::Artifact));
    assert!(matches!(route("/docs"), Route::Artifact));
}

#[test]
fn content_types_follow_the_table() {
    let table = [
        ("jpg", "image/jpeg"),
        ("jpeg", "image/jpeg"),
        ("png", "image/png"),
        ("gif", "image/gif"),
        ("svg", "image/svg+xml"),
        ("webp", "image/webp"),
        ("ico", "image/x-icon"),
        ("bmp", "image/bmp"),
        ("tiff", "image/tiff"),
        ("tif", "image/tiff"),
        ("html", "text/html; charset=utf-8"),
        ("htm", "text/html; charset=utf-8"),
        ("css", "text/css; charset=utf-8"),
        ("js", "application/javascript; charset=utf-8"),
        ("mjs", "application/javascript; charset=utf-8"),
        ("json", "application/json; charset=utf-8"),
        ("xml", "application/xml; charset=utf-8"),
        ("txt", "text/plain; charset=utf-8"),
        ("md", "text/markdown; charset=utf-8"),
        ("yaml", "text/yaml; charset=utf-8"),
        ("yml", "text/yaml; charset=utf-8"),
        ("pdf", "application/pdf"),
        ("doc", "application/msword"),
        ("docx", "application/vnd.openxmlformats-officedocument.wordprocessingml.document"),
        ("mp3", "audio/mpeg"),
        ("wav", "audio/wav"),
        ("ogg", "audio/ogg"),
        ("m4a", "audio/mp4"),
        ("mp4", "video/mp4"),
        ("webm", "video/webm"),
        ("mov", "video/quicktime"),
        ("avi", "video/x-msvideo"),
        ("zip", "application/zip"),
        ("tar", "application/x-tar"),
        ("gz", "application/gzip"),
        ("woff", "font/woff"),
        ("woff2", "font/woff2"),
        ("ttf", "font/ttf"),
        ("otf", "font/otf"),
        ("eot", "application/vnd.ms-fontobject"),
    ];
    for (ext, expected) in table {
        assert_eq!(content_type_for_extension(ext), expected);
        assert_eq!(get_content_type(&format!("docs/file.{}", ext)), expected);
    }
    assert_eq!(content_type_for_extension("exe"), "application/octet-stream");
    assert_eq!(content_type_for_extension(""), "application/octet-stream");
}

#[test]
fn extension_is_what_follows_the_last_dot_in_lower_case() {
    assert_eq!(extension("docs/a.tar.GZ"), "gz");
    assert_eq!(extension("docs/Photo.JPeG"), "jpeg");
    assert_eq!(extension("docs/Makefile"), "");
    assert_eq!(extension("png"), "");
    assert_eq!(extension("docs/v1.2/Makefile"), "2/makefile");
    assert_eq!(extension("docs/trailing."), "");
    assert_eq!(get_content_type("docs/Photo.PNG"), "image/png");
    assert_eq!(get_content_type("docs/Makefile"), "application/octet-stream");
    assert_eq!(get_content_type("png"), "application/octet-stream");
    assert_eq!(get_content_type("css"), "application/octet-stream");
    assert_eq!(get_content_type(""), "application/octet-stream");
    assert_eq!(get_content_type("docs/v1.2/Makefile"), "application/octet-stream");
    assert_eq!(get_content_type(".png"), "image/png");
    assert_eq!(get_content_type("docs/file.\u{212A}ml"), "application/octet-stream");
}

#[test]
fn existing_stylesheet_is_served_as_css() {
    let bytes = b"body { color: red; }".to_vec();
    let file = asset("/style.css");
    let response = static_response(&file, Some(bytes.clone()));
    assert_eq!(response.status, 200);
    assert_eq!(header(&response, "content-type"), Some("text/css; charset=utf-8"));
    assert_eq!(header(&response, "cache-control"), Some("no-cache, no-store, must-revalidate"));
    assert_eq!(header(&response, "pragma"), Some("no-cache"));
    assert_eq!(header(&response, "expires"), Some("0"));
    assert_eq!(response.headers.len(), 4);
    assert_eq!(response.body, bytes);
}

#[test]
fn missing_asset_is_a_404_that_names_it() {
    let file = asset("/missing.png");
    let response = static_response(&file, None);
    assert_eq!(response.status, 404);
    assert_eq!(header(&response, "content-type"), Some("text/html; charset=utf-8"));
    assert_eq!(header(&response, "cache-control"), None);
    let body = String::from_utf8(response.body).unwrap();
    assert!(body.contains("missing.png"));
    assert!(body.contains("<code>docs/missing.png</code> could not be found."));
    assert!(body.contains("File not found"));
}

#[test]
fn artifact_before_any_build_is_a_404_with_guidance() {
    let response = artifact_response(None);
    assert_eq!(response.status, 404);
    assert_eq!(header(&response, "content-type"), Some("text/html; charset=utf-8"));
    assert_eq!(response.headers.len(), 1);
    let body = String::from_utf8(response.body).unwrap();
    assert!(body.contains("The index.html file hasn't been generated yet."));
    assert!(body.contains("cargo run init-config"));
}

#[test]
fn artifact_after_a_build_is_served_uncached() {
    let page = "<!DOCTYPE html><html>caf\u{e9}</html>".to_string();
    let response = artifact_response(Some(page.clone()));
    assert_eq!(response.status, 200);
    assert_eq!(header(&response, "content-type"), Some("text/html; charset=utf-8"));
    assert_eq!(header(&response, "cache-control"), Some("no-cache, no-store, must-revalidate"));
    assert_eq!(header(&response, "pragma"), Some("no-cache"));
    assert_eq!(header(&response, "expires"), Some("0"));
    assert_eq!(response.body, page.into_bytes());
}

fn serve_after(on_disk: &mut Option<String>, built: Result<String, String>) -> HttpResponse {
    if let (ArtifactUpdate::Replace(page), _) = RebuildCoordinator::settle(built) {
        *on_disk = Some(page);
    }
    artifact_response(on_disk.clone())
}

#[test]
fn failed_rebuild_leaves_the_served_artifact_as_it_was() {
    let mut on_disk = None;
    assert_eq!(serve_after(&mut on_disk, Err("no config".to_string())).status, 404);
    let first = serve_after(&mut on_disk, Ok("<html>old</html>".to_string()));
    assert_eq!(first.status, 200);
    assert_eq!(first.body, b"<html>old</html>".to_vec());
    let after_failure = serve_after(&mut on_disk, Err("bad yaml".to_string()));
    assert_eq!(after_failure.status, 200);
    assert_eq!(after_failure.body, first.body);
    assert_eq!(header(&after_failure, "cache-control"), header(&first, "cache-control"));
    let after_success = serve_after(&mut on_disk, Ok("<html>new</html>".to_string()));
    assert_eq!(after_success.body, b"<html>new</html>".to_vec());
}
