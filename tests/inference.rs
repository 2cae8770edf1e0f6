use nativefier::error::{Error, ParseError, ScrapeError};
use nativefier::icon::{Icon, Size};
use nativefier::inferer::{page_links, Downloader, Inferer};
use nativefier::links::{extract_links, icon_candidates, LinkAttrs};
use nativefier::select::select_best;
use std::collections::HashMap;
use std::io::Cursor;

fn png(w: u32, h: u32) -> Vec<u8> {
    let img = image::DynamicImage::ImageRgba8(image::RgbaImage::new(w, h));
    let mut buf: Vec<u8> = Vec::new();
    img.write_to(&mut Cursor::new(&mut buf), image::ImageFormat::Png).unwrap();
    buf
}

#[derive(Clone, Default)]
struct FakeWeb {
    pages: HashMap<String, Vec<u8>>,
}

impl FakeWeb {
    fn with(mut self, url: &str, body: Vec<u8>) -> Self {
        self.pages.insert(url.to_string(), body);
        self
    }
}

impl Downloader for FakeWeb {
    fn get(&self, url: &str) -> Result<Vec<u8>, Error> {
        match self.pages.get(url) {
            Some(b) => Ok(b.clone()),
            None => Err(Error::Download(format!("connection refused: {}", url))),
        }
    }
}

fn icon(name: &str, w: u32, h: u32) -> Icon {
    Icon {
        source: format!("https://{}/i.png", name),
        name: name.to_string(),
        size: 0,
        ext: ".png".to_string(),
        mime: "image/png".to_string(),
        buffer: vec![],
        dimensions: Size { w, h },
    }
}

#[test]
fn infer_picks_the_largest_icon() {
    let page = r#"<html><head><link rel="icon" href="a.png"><link rel="icon" href="b.png"></head></html>"#;
    let web = FakeWeb::default()
        .with("https://example.com/", page.as_bytes().to_vec())
        .with("https://example.com/a.png", png(64, 64))
        .with("https://example.com/b.png", png(128, 128));
    let icon = Inferer::new(web).infer("https://example.com/").unwrap();
    assert_eq!(icon.dimensions, Size { w: 128, h: 128 });
    assert_eq!(icon.source, "https://example.com/b.png");
    assert_eq!(icon.name, "example.com");
    assert_eq!(icon.ext, ".png");
    assert_eq!(icon.mime, "image/png");
    assert_eq!(icon.size, icon.buffer.len());
}

#[test]
fn stylesheet_only_page_finds_no_icons() {
    let page = r#"<link rel="stylesheet" href="c.png">"#;
    let links = extract_links(page, "https://example.com/").unwrap();
    assert!(links.is_empty());
    let web = FakeWeb::default()
        .with("https://example.com/", page.as_bytes().to_vec())
        .with("https://example.com/c.png", png(16, 16));
    let r = Inferer::new(web).infer("https://example.com/");
    assert!(matches!(r, Err(Error::Scrape(ScrapeError::NoIconsFound))));
}

#[test]
fn failing_candidate_is_skipped() {
    let page = r#"<link rel="icon" href="bad.png"><link rel="icon" href="ok.png">"#;
    let web = FakeWeb::default()
        .with("https://example.com/", page.as_bytes().to_vec())
        .with("https://example.com/ok.png", png(32, 32));
    let icon = Inferer::new(web).infer("https://example.com/").unwrap();
    assert_eq!(icon.dimensions, Size { w: 32, h: 32 });
}

#[test]
fn relative_href_is_resolved_against_base() {
    let page = r#"<link rel="icon" href="/favicon.png">"#;
    let links = extract_links(page, "https://example.com/page").unwrap();
    assert_eq!(links, vec!["https://example.com/favicon.png".to_string()]);
}

#[test]
fn only_icon_png_links_are_extracted() {
    let page = r#"<html><head>
        <link rel="shortcut icon" href="https://cdn.example.org/x.png?v=2">
        <link rel="icon" href="favicon.ico">
        <link rel="stylesheet" href="style.png">
        <link rel="apple-touch-icon" href="touch.png">
        <link href="norel.png">
        <link rel="icon">
        <a rel="icon" href="anchor.png">x</a>
        </head></html>"#;
    let links = extract_links(page, "https://example.com/dir/page").unwrap();
    assert_eq!(
        links,
        vec![
            "https://cdn.example.org/x.png?v=2".to_string(),
            "https://example.com/dir/touch.png".to_string(),
        ]
    );
}

#[test]
fn absolute_href_is_kept_verbatim() {
    let page = r#"<link rel="icon" href="http://other.example/ICON.png">"#;
    let links = extract_links(page, "https://example.com/").unwrap();
    assert_eq!(links, vec!["http://other.example/ICON.png".to_string()]);
}

#[test]
fn malformed_base_is_a_parse_error() {
    let r = extract_links(r#"<link rel="icon" href="a.png">"#, "not a url");
    assert!(matches!(r, Err(Error::Parse(ParseError::Url(_)))));
}

#[test]
fn unresolvable_href_is_dropped() {
    let r = extract_links(r#"<link rel="icon" href="a.png">"#, "mailto:someone@example.com").unwrap();
    assert!(r.is_empty());
    let page = r#"<link rel="icon" href="//h:99999/a.png"><link rel="icon" href="b.png">"#;
    let r = extract_links(page, "https://example.com/").unwrap();
    assert_eq!(r, vec!["https://example.com/b.png".to_string()]);
}

#[test]
fn candidates_from_given_attributes() {
    let attrs = |rel: Option<&str>, href: Option<&str>| LinkAttrs {
        rel: rel.map(String::from),
        href: href.map(String::from),
    };
    let links = vec![
        attrs(Some("icon"), Some("a.png")),
        attrs(None, Some("b.png")),
        attrs(Some("icon"), None),
        attrs(Some("stylesheet"), Some("c.png")),
        attrs(Some("icon"), Some("d.ico")),
        attrs(Some("mask-icon"), Some("http://cdn.test/e.png")),
        attrs(Some("icon"), Some("//h:99999/f.png")),
        attrs(Some("icon"), Some("../g.png")),
    ];
    let r = icon_candidates(&links, "https://example.com/x/y");
    assert_eq!(
        r,
        vec![
            "https://example.com/x/a.png".to_string(),
            "http://cdn.test/e.png".to_string(),
            "https://example.com/g.png".to_string(),
        ]
    );
}

#[test]
fn page_fetch_failure_ends_inference() {
    let r = Inferer::new(FakeWeb::default()).infer("https://example.com/");
    assert!(matches!(r, Err(Error::Download(_))));
}

#[test]
fn page_that_is_not_utf8_is_a_download_error() {
    let r = page_links(vec![0xff, 0xfe, 0x3c], "https://example.com/");
    assert!(matches!(r, Err(Error::Download(_))));
    let ok = page_links(br#"<link rel="icon" href="i.png">"#.to_vec(), "https://example.com/").unwrap();
    assert_eq!(ok, vec!["https://example.com/i.png".to_string()]);
}

#[test]
fn classify_reports_decoded_dimensions() {
    let data = png(48, 20);
    let icon = Icon::classify("https://img.example.net/icons/logo.v2.png", data.clone()).unwrap();
    assert_eq!(icon.dimensions, Size { w: 48, h: 20 });
    assert_eq!(icon.name, "img.example.net");
    assert_eq!(icon.ext, ".png");
    assert_eq!(icon.mime, "image/png");
    assert_eq!(icon.size, data.len());
    assert_eq!(icon.buffer, data);
    assert_eq!(icon.source, "https://img.example.net/icons/logo.v2.png");
    assert_eq!(icon.as_bytes(), &data[..]);
}

#[test]
fn classify_extension_follows_last_dot() {
    let icon = Icon::classify("https://example.com/a.png?size=large.x", png(1, 1)).unwrap();
    assert_eq!(icon.ext, ".x");
}

#[test]
fn classify_without_host_has_empty_name() {
    let icon = Icon::classify("data:image.png", png(2, 3)).unwrap();
    assert_eq!(icon.name, "");
    assert_eq!(icon.dimensions, Size { w: 2, h: 3 });
}

#[test]
fn classify_unknown_content_is_a_scrape_error() {
    let r = Icon::classify("https://example.com/a.png", b"hello there".to_vec());
    match r {
        Err(Error::Scrape(ScrapeError::NoMime(u))) => assert_eq!(u, "https://example.com/a.png"),
        _ => panic!("expected a missing content type"),
    }
}

#[test]
fn classify_corrupt_image_is_an_image_error() {
    let mut data = vec![0x89, b'P', b'N', b'G', 0x0d, 0x0a, 0x1a, 0x0a];
    data.extend_from_slice(&[0u8; 32]);
    let r = Icon::classify("https://example.com/a.png", data);
    assert!(matches!(r, Err(Error::Image(_))));
}

#[test]
fn classify_bad_url_is_a_parse_error() {
    let r = Icon::classify("relative/a.png", png(4, 4));
    assert!(matches!(r, Err(Error::Parse(ParseError::Url(_)))));
}

#[test]
fn select_from_nothing_is_no_icons_found() {
    assert!(matches!(select_best(vec![]), Err(Error::Scrape(ScrapeError::NoIconsFound))));
    let all_failed = vec![Err(Error::Download("x".to_string())), Err(Error::Download("y".to_string()))];
    assert!(matches!(select_best(all_failed), Err(Error::Scrape(ScrapeError::NoIconsFound))));
}

#[test]
fn select_orders_by_width_then_height() {
    let r = select_best(vec![
        Ok(icon("a", 64, 200)),
        Ok(icon("b", 128, 16)),
        Err(Error::Download("z".to_string())),
        Ok(icon("c", 128, 8)),
    ])
    .unwrap();
    assert_eq!(r.name, "b");
}

#[test]
fn select_tie_goes_to_the_later_result() {
    let r = select_best(vec![Ok(icon("first", 32, 32)), Ok(icon("second", 32, 32)), Ok(icon("small", 16, 16))]).unwrap();
    assert_eq!(r.name, "second");
}

#[test]
fn selected_dimensions_do_not_depend_on_order() {
    let one = select_best(vec![Ok(icon("a", 10, 10)), Ok(icon("b", 20, 5)), Ok(icon("c", 20, 5))]).unwrap();
    let two = select_best(vec![Ok(icon("c", 20, 5)), Ok(icon("a", 10, 10)), Ok(icon("b", 20, 5))]).unwrap();
    assert_eq!(one.dimensions, two.dimensions);
    assert_eq!(one.name, "c");
    assert_eq!(two.name, "b");
}

#[test]
fn size_order_and_conversion() {
    assert!(Size { w: 2, h: 1 } > Size { w: 1, h: 100 });
    assert!(Size { w: 2, h: 1 }.at_most(&Size { w: 2, h: 1 }));
    assert!(!Size { w: 2, h: 2 }.at_most(&Size { w: 2, h: 1 }));
    assert!(Size { w: 1, h: 100 }.at_most(&Size { w: 2, h: 1 }));
    assert_eq!(Size::from((3, 4)), Size { w: 3, h: 4 });
}

#[test]
fn icons_are_equal_by_name_and_dimensions() {
    let mut a = icon("x", 5, 5);
    let b = icon("x", 5, 5);
    a.buffer = vec![1, 2, 3];
    assert!(a == b);
    assert!(icon("x", 5, 5) != icon("y", 5, 5));
    assert!(icon("x", 5, 5) != icon("x", 5, 6));
}
