use axum_static::decision::decide_content_type;
use axum_static::decision::resolve_content_type;
use axum_static::decision::ContentTypeDecision;
use axum_static::decision::NO_EXTENSION_MARKER;
use axum_static::extension::extension_token;
use axum_static::table::infer_content_type_from_extension;
use axum_static::table::FALLBACK_MEDIA_TYPE;
use axum_static::text::str_eq;

#[test]
fn every_listed_extension_has_its_media_type() {
    let table = [
        ("html", "text/html"),
        ("css", "text/css"),
        ("js", "text/javascript"),
        ("json", "application/json"),
        ("png", "image/png"),
        ("jpg", "image/jpeg"),
        ("jpeg", "image/jpeg"),
        ("gif", "image/gif"),
        ("svg", "image/svg+xml"),
        ("ico", "image/x-icon"),
        ("ttf", "font/ttf"),
        ("woff", "font/woff"),
        ("woff2", "font/woff2"),
        ("eot", "application/vnd.ms-fontobject"),
        ("otf", "font/otf"),
        ("txt", "text/plain"),
        ("pdf", "application/pdf"),
        ("doc", "application/msword"),
        ("docx", "application/vnd.openxmlformats-officedocument.wordprocessingml.document"),
        ("xls", "application/vnd.ms-excel"),
        ("xlsx", "application/vnd.openxmlformats-officedocument.spreadsheetml.sheet"),
        ("ppt", "application/vnd.ms-powerpoint"),
        ("pptx", "application/vnd.openxmlformats-officedocument.presentationml.presentation"),
        ("xml", "application/xml"),
        ("zip", "application/zip"),
        ("rar", "application/x-rar-compressed"),
        ("7z", "application/x-7z-compressed"),
        ("gz", "application/gzip"),
        ("tar", "application/x-tar"),
        ("swf", "application/x-shockwave-flash"),
        ("flv", "video/x-flv"),
        ("avi", "video/x-msvideo"),
        ("mov", "video/quicktime"),
        ("mp4", "video/mp4"),
        ("f4v", "video/mp4"),
        ("f4p", "video/mp4"),
        ("f4a", "video/mp4"),
        ("f4b", "video/mp4"),
        ("mp3", "audio/mpeg"),
        ("wav", "audio/x-wav"),
        ("ogg", "audio/ogg"),
        ("webm", "video/webm"),
        ("mpg", "video/mpeg"),
        ("mpeg", "video/mpeg"),
        ("mpe", "video/mpeg"),
        ("mp2", "video/mpeg"),
        ("m4v", "video/x-m4v"),
        ("3gp", "video/3gpp"),
        ("3g2", "video/3gpp2"),
        ("mkv", "video/x-matroska"),
        ("amv", "video/x-matroska"),
        ("m3u", "audio/x-mpegurl"),
        ("m3u8", "application/vnd.apple.mpegurl"),
        ("ts", "video/mp2t"),
        ("webp", "image/webp"),
        ("bmp", "image/bmp"),
        ("tif", "image/tiff"),
        ("tiff", "image/tiff"),
        ("psd", "image/vnd.adobe.photoshop"),
        ("ai", "application/postscript"),
        ("eps", "application/postscript"),
        ("ps", "application/postscript"),
        ("dwg", "image/vnd.dwg"),
        ("dxf", "image/vnd.dxf"),
        ("rtf", "application/rtf"),
        ("odt", "application/vnd.oasis.opendocument.text"),
        ("ods", "application/vnd.oasis.opendocument.spreadsheet"),
        ("wasm", "application/wasm"),
    ];
    assert_eq!(table.len(), 68);
    for (extension, media_type) in table {
        assert_eq!(infer_content_type_from_extension(extension), media_type);
    }
}

#[test]
fn every_listed_media_type_has_a_type_and_a_subtype() {
    for extension in ["html", "7z", "docx", "m3u8", "svg", "nothing-like-it", ""] {
        let media_type = infer_content_type_from_extension(extension);
        let parts: Vec<&str> = media_type.split('/').collect();
        assert_eq!(parts.len(), 2);
        assert!(!parts[0].is_empty());
        assert!(!parts[1].is_empty());
        assert!(media_type.bytes().all(|b| b > 32 && b < 127));
    }
}

#[test]
fn unlisted_extensions_get_the_fallback() {
    assert_eq!(FALLBACK_MEDIA_TYPE, "application/octet-stream");
    for extension in ["xyz", "", "htm", "html5", "jp", "jpgg", " png", "png ", ".png", "/", "b/c"] {
        assert_eq!(infer_content_type_from_extension(extension), "application/octet-stream");
    }
}

#[test]
fn the_table_is_keyed_in_lower_case() {
    assert_eq!(infer_content_type_from_extension("jpg"), "image/jpeg");
    assert_eq!(infer_content_type_from_extension("JPG"), "application/octet-stream");
    assert_eq!(infer_content_type_from_extension("Html"), "application/octet-stream");
}

#[test]
fn classification_ignores_case() {
    let lower = decide_content_type("/photos/cat.jpg", false);
    let upper = decide_content_type("/photos/cat.JPG", false);
    let mixed = decide_content_type("/PHOTOS/Cat.JpG", false);
    assert_eq!(lower, ContentTypeDecision::Known("image/jpeg"));
    assert_eq!(upper, lower);
    assert_eq!(mixed, lower);
    assert_eq!(upper.header_text(), "image/jpeg");
}

#[test]
fn strings_compare_by_their_characters() {
    assert!(str_eq("", ""));
    assert!(str_eq("html", "html"));
    assert!(!str_eq("html", "htm"));
    assert!(!str_eq("htm", "html"));
    assert!(!str_eq("html", "htmL"));
    assert!(!str_eq("", "a"));
    assert!(str_eq("h\u{e9}", "h\u{e9}"));
    assert!(!str_eq("h\u{e9}", "h\u{e8}"));
}

#[test]
fn extension_follows_the_last_dot() {
    assert_eq!(extension_token("/assets/app.js"), Some(String::from("js")));
    assert_eq!(extension_token("/archive.tar.gz"), Some(String::from("gz")));
    assert_eq!(extension_token("a.b"), Some(String::from("b")));
    assert_eq!(extension_token(".hidden"), Some(String::from("hidden")));
}

#[test]
fn extension_is_lower_cased() {
    assert_eq!(extension_token("/X.JPG"), Some(String::from("jpg")));
    assert_eq!(extension_token("/Index.HtMl"), Some(String::from("html")));
    assert_eq!(extension_token("/a.Z9-_"), Some(String::from("z9-_")));
    assert_eq!(extension_token("/a.\u{c9}T\u{c9}"), Some(String::from("\u{c9}t\u{c9}")));
}

#[test]
fn path_without_dot_has_no_extension() {
    assert_eq!(extension_token("/"), None);
    assert_eq!(extension_token(""), None);
    assert_eq!(extension_token("/assets/readme"), None);
    assert_eq!(extension_token("/caf\u{e9}/menu"), None);
}

#[test]
fn extension_may_be_empty_or_span_segments() {
    assert_eq!(extension_token("/file."), Some(String::new()));
    assert_eq!(extension_token("."), Some(String::new()));
    assert_eq!(extension_token("/v1.2/readme"), Some(String::from("2/readme")));
    assert_eq!(extension_token("/\u{e9}t\u{e9}.d/x"), Some(String::from("d/x")));
}

#[test]
fn script_path_is_javascript() {
    let decision = decide_content_type("/assets/app.js", false);
    assert_eq!(decision, ContentTypeDecision::Known("text/javascript"));
    assert_eq!(decision.header_text(), "text/javascript");
}

#[test]
fn unlisted_extension_is_an_octet_stream() {
    let decision = decide_content_type("/assets/unknownext.xyz", false);
    assert_eq!(decision, ContentTypeDecision::UnknownExtension);
    assert_eq!(decision.header_text(), "application/octet-stream");
}

#[test]
fn directory_path_is_marked_unknown() {
    let decision = decide_content_type("/", false);
    assert_eq!(decision, ContentTypeDecision::NoExtension);
    assert_eq!(decision.header_text(), "unknown");
    assert_eq!(NO_EXTENSION_MARKER, "unknown");
}

#[test]
fn missing_file_is_classified_by_its_path() {
    let decision = decide_content_type("/nope.png", false);
    assert_eq!(decision.header_text(), "image/png");
}

#[test]
fn empty_and_spanning_extensions_are_unlisted() {
    assert_eq!(decide_content_type("/file.", false), ContentTypeDecision::UnknownExtension);
    assert_eq!(decide_content_type("/v1.2/readme", false), ContentTypeDecision::UnknownExtension);
    assert_eq!(decide_content_type("/site.html/", false), ContentTypeDecision::UnknownExtension);
}

#[test]
fn database_answer_wins() {
    assert_eq!(
        decide_content_type("/src/main.rs", true),
        ContentTypeDecision::Known("text/x-rust")
    );
    assert_eq!(
        decide_content_type("/molecule.xyz", true),
        ContentTypeDecision::Known("chemical/x-xyz")
    );
    assert_eq!(
        decide_content_type("/font.woff", true),
        ContentTypeDecision::Known("application/font-woff")
    );
    assert_eq!(decide_content_type("/font.woff", false), ContentTypeDecision::Known("font/woff"));
}

#[test]
fn database_is_asked_without_regard_to_case() {
    assert_eq!(
        decide_content_type("/SRC/MAIN.RS", true),
        ContentTypeDecision::Known("text/x-rust")
    );
}

#[test]
fn embedded_table_answers_where_the_database_is_silent() {
    assert_eq!(decide_content_type("/clip.f4p", true), ContentTypeDecision::Known("video/mp4"));
    assert_eq!(decide_content_type("/clip.AMV", true), ContentTypeDecision::Known("video/x-matroska"));
    assert_eq!(
        decide_content_type("/a.no-such-extension", true),
        ContentTypeDecision::UnknownExtension
    );
}

#[test]
fn database_is_asked_for_the_same_extension_as_the_table() {
    assert_eq!(decide_content_type("/.rs", true), ContentTypeDecision::Known("text/x-rust"));
    assert_eq!(decide_content_type("/.png", false), ContentTypeDecision::Known("image/png"));
    assert_eq!(decide_content_type("/a.png/", true), ContentTypeDecision::UnknownExtension);
    assert_eq!(decide_content_type("/a.png/", false), ContentTypeDecision::UnknownExtension);
    assert_eq!(decide_content_type("/a.", true), ContentTypeDecision::UnknownExtension);
}

#[test]
fn database_may_answer_with_the_fallback_type() {
    let decision = decide_content_type("/layers.psd", true);
    assert_eq!(decision, ContentTypeDecision::Known("application/octet-stream"));
    assert_eq!(
        decide_content_type("/layers.psd", false),
        ContentTypeDecision::Known("image/vnd.adobe.photoshop")
    );
}

#[test]
fn path_without_dot_is_marked_with_the_database_too() {
    assert_eq!(decide_content_type("/", true), ContentTypeDecision::NoExtension);
    assert_eq!(decide_content_type("/assets/readme", true), ContentTypeDecision::NoExtension);
    assert_eq!(decide_content_type("", true), ContentTypeDecision::NoExtension);
}

#[test]
fn resolution_prefers_the_guess_then_the_table() {
    assert_eq!(
        resolve_content_type(Some("text/x-rust"), Some("png")),
        ContentTypeDecision::Known("text/x-rust")
    );
    assert_eq!(
        resolve_content_type(Some("text/x-rust"), None),
        ContentTypeDecision::Known("text/x-rust")
    );
    assert_eq!(resolve_content_type(None, Some("png")), ContentTypeDecision::Known("image/png"));
    assert_eq!(resolve_content_type(None, Some("PNG")), ContentTypeDecision::UnknownExtension);
    assert_eq!(resolve_content_type(None, Some("")), ContentTypeDecision::UnknownExtension);
    assert_eq!(resolve_content_type(None, None), ContentTypeDecision::NoExtension);
}

#[test]
fn decision_texts() {
    assert_eq!(ContentTypeDecision::Known("a/b").header_text(), "a/b");
    assert_eq!(ContentTypeDecision::UnknownExtension.header_text(), "application/octet-stream");
    assert_eq!(ContentTypeDecision::NoExtension.header_text(), "unknown");
}
