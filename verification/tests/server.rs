use bali::handle;
use bali::homepage;
use bali::img_cat;
use bali::img_cow;
use bali::router::cat_jpg_bytes;
use bali::router::cow_jpg_bytes;
use bali::Component;
use bali::DataSource;
use bali::Document;
use bali::File;
use bali::Image;
use bali::Resource;
use bali::Text;
use bali::STATUS_NOT_FOUND;
use bali::STATUS_OK;

#[test]
fn registered_routes_serve_ok_with_headers() {
    for (method, path) in [("GET", "/"), ("GET", "/cow.jpg"), ("GET", "/cat.jpg")] {
        let r = handle(method, path);
        assert_eq!(r.status, STATUS_OK);
        assert_eq!(r.headers.len(), 2);
        assert_eq!(r.headers[0].0, "content-type");
        assert!(!r.headers[0].1.is_empty());
        assert_eq!(r.headers[1].0, "server");
        assert_eq!(r.headers[1].1, "bali/1.0");
    }
}

#[test]
fn unregistered_routes_are_not_found_with_empty_body() {
    for (method, path) in [
        ("GET", "/nope"),
        ("PUT", "/"),
        ("DELETE", "/cow.jpg"),
        ("HEAD", "/cat.jpg"),
        ("GET", ""),
        ("GET", "/cow.jpg/"),
    ] {
        let r = handle(method, path);
        assert_eq!(r.status, STATUS_NOT_FOUND);
        assert!(r.headers.is_empty());
        assert!(r.body.is_empty());
    }
}

#[test]
fn get_root_serves_homepage() {
    let r = handle("GET", "/");
    assert_eq!(r.status, STATUS_OK);
    assert_eq!(r.headers[0].1, "text/html");
    let body = String::from_utf8(r.body).unwrap();
    assert!(body.starts_with("<!DOCTYPE html>\n"));
    let rest = &body["<!DOCTYPE html>\n".len()..];
    assert!(rest.starts_with("Hello, World!"));
    let rest = &rest["Hello, World!".len()..];
    assert_eq!(rest, "<img src=\"/cat.jpg\" />");
}

#[test]
fn get_cow_serves_embedded_cow_bytes() {
    let r = handle("GET", "/cow.jpg");
    assert_eq!(r.status, STATUS_OK);
    assert_eq!(r.headers[0].1, "image/jpeg");
    assert_eq!(r.body, cow_jpg_bytes());
}

#[test]
fn get_cat_serves_embedded_cat_bytes() {
    let r = handle("GET", "/cat.jpg");
    assert_eq!(r.status, STATUS_OK);
    assert_eq!(r.headers[0].1, "image/jpeg");
    assert_eq!(r.body, cat_jpg_bytes());
}

#[test]
fn post_on_known_path_is_not_found() {
    let r = handle("POST", "/");
    assert_eq!(r.status, STATUS_NOT_FOUND);
    assert!(r.body.is_empty());
}

#[test]
fn get_missing_asset_is_not_found() {
    let r = handle("GET", "/missing.png");
    assert_eq!(r.status, STATUS_NOT_FOUND);
    assert!(r.body.is_empty());
}

#[test]
fn rendering_is_deterministic() {
    let doc = homepage();
    assert_eq!(doc.render(), doc.render());
    let again = homepage();
    assert_eq!(doc.render(), again.render());
    assert_eq!(doc.body(), again.body());
}

#[test]
fn rendering_is_order_sensitive() {
    let mut doc = Document::new();
    doc.insert_element(Component::Text(Text::new("greeting")));
    doc.insert_element(Component::Image(Image::new("/pic.png")));
    assert_eq!(doc.render(), "<!DOCTYPE html>\ngreeting<img src=\"/pic.png\" />");

    let mut reversed = Document::new();
    reversed.insert_element(Component::Image(Image::new("/pic.png")));
    reversed.insert_element(Component::Text(Text::new("greeting")));
    assert_eq!(reversed.render(), "<!DOCTYPE html>\n<img src=\"/pic.png\" />greeting");
}

#[test]
fn empty_document_renders_doctype_only() {
    let doc = Document::new();
    assert_eq!(doc.render(), "<!DOCTYPE html>\n");
}

#[test]
fn text_renders_its_content_unchanged() {
    let t = Text::new("Hello, World!");
    assert_eq!(t.render(), "Hello, World!");
    let empty = Text::new("");
    assert_eq!(empty.render(), "");
}

#[test]
fn image_renders_a_self_closing_tag() {
    let img = Image::new("/cat.jpg");
    assert_eq!(img.render(), "<img src=\"/cat.jpg\" />");
}

#[test]
fn file_body_round_trips_its_source_bytes() {
    let bytes = vec![0u8, 1, 2, 254, 255, 42];
    let ds = DataSource::Static { content: bytes.clone() };
    let f = File::new(ds, "application/octet-stream");
    assert_eq!(f.body(), bytes);

    let empty = File::new(DataSource::Static { content: Vec::new() }, "image/jpeg");
    assert!(empty.body().is_empty());
}

#[test]
fn data_source_yields_its_bytes() {
    let ds = DataSource::Static { content: vec![9u8, 8, 7] };
    assert_eq!(ds.as_bytes(), vec![9u8, 8, 7]);
    assert_eq!(ds.as_bytes(), ds.as_bytes());
}

#[test]
fn document_headers_fix_html_and_server() {
    let doc = homepage();
    let h = doc.headers();
    assert_eq!(
        h,
        vec![
            ("content-type".to_owned(), "text/html".to_owned()),
            ("server".to_owned(), "bali/1.0".to_owned()),
        ]
    );
}

#[test]
fn file_headers_use_stored_media_type_and_server() {
    let cow = img_cow();
    let h = cow.headers();
    assert_eq!(
        h,
        vec![
            ("content-type".to_owned(), "image/jpeg".to_owned()),
            ("server".to_owned(), "bali/1.0".to_owned()),
        ]
    );
    let cat = img_cat();
    assert_eq!(cat.headers(), h);
}

#[test]
fn builders_embed_distinct_assets() {
    assert_ne!(img_cow().body(), img_cat().body());
    assert_eq!(img_cow().body(), cow_jpg_bytes());
    assert_eq!(img_cat().body(), cat_jpg_bytes());
}
