use quotewall::{asset_path_allowed, embedded_file, AssetResponse};

#[test]
fn paths_that_may_be_looked_up() {
    assert!(asset_path_allowed("index.html"));
    assert!(asset_path_allowed("css/site.css"));
    assert!(asset_path_allowed("a.b.c"));
    assert!(asset_path_allowed(""));
    assert!(!asset_path_allowed("../secret"));
    assert!(!asset_path_allowed("css/..hidden"));
    assert!(!asset_path_allowed("x.."));
    assert!(!asset_path_allowed("/etc/passwd"));
}

#[test]
fn serving_assets() {
    assert_eq!(
        embedded_file("index.html", Some(b"<p>".to_vec())),
        AssetResponse::File { content_type: "text/html".to_owned(), body: b"<p>".to_vec() }
    );
    assert_eq!(
        embedded_file("app.js", Some(Vec::new())),
        AssetResponse::File {
            content_type: mime_guess::from_path("app.js").first_or_octet_stream().to_string(),
            body: Vec::new(),
        }
    );
    assert_eq!(
        embedded_file("blob", Some(vec![1])),
        AssetResponse::File { content_type: "application/octet-stream".to_owned(), body: vec![1] }
    );
    assert_eq!(embedded_file("missing.png", None), AssetResponse::NotFound);
    assert_eq!(embedded_file("../index.html", Some(vec![1])), AssetResponse::NotFound);
    assert_eq!(embedded_file("/index.html", Some(vec![1])), AssetResponse::NotFound);
}
