use taurus::mime::classify;

#[test]
fn classify_gemini_document() {
    assert_eq!(classify("a.gmi"), String::from("text/gemini; charset=utf-8"));
}

#[test]
fn classify_unknown_extension_falls_back() {
    assert_eq!(classify("a.unknownext"), String::from("text/plain"));
}

#[test]
fn classify_common_types() {
    assert_eq!(classify("/srv/page.html"), String::from("text/html"));
    assert_eq!(classify("img.png"), String::from("image/png"));
    assert_eq!(classify("img.jpg"), String::from("image/jpeg"));
    assert_eq!(classify("img.jpeg"), String::from("image/jpeg"));
    assert_eq!(classify("anim.gif"), String::from("image/gif"));
    assert_eq!(classify("doc.pdf"), String::from("application/pdf"));
}

#[test]
fn classify_without_extension() {
    assert_eq!(classify("README"), String::from("text/plain"));
    assert_eq!(classify(""), String::from("text/plain"));
}

#[test]
fn classify_dot_in_directory_only() {
    // The last dot sits before the last slash: the final segment has no
    // extension.
    assert_eq!(classify("/notes.d/file"), String::from("text/plain"));
}

#[test]
fn classify_uses_last_extension() {
    assert_eq!(classify("archive.tar.gmi"), String::from("text/gemini; charset=utf-8"));
}
