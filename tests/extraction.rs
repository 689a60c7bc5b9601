use chan_scraper::document::{extract_links, extract_page, FILE_LIST_SELECTOR};
use chan_scraper::error::ScrapeError;
use chan_scraper::links::{find_attr, join_texts, link_from_anchor, links_from_anchors, Anchor, FileLink};

fn link(url: &str, name: &str) -> FileLink {
    FileLink { url: url.to_string(), name: name.to_string() }
}

fn anchor(attrs: &[(&str, &str)], texts: &[&str]) -> Anchor {
    Anchor {
        attrs: attrs.iter().map(|(k, v)| (k.to_string(), v.to_string())).collect(),
        texts: texts.iter().map(|t| t.to_string()).collect(),
    }
}

#[test]
fn selector_names_file_text_anchors() {
    assert_eq!(FILE_LIST_SELECTOR, ".fileText a");
}

#[test]
fn one_link_per_matched_anchor_in_document_order() {
    let body = "<html><body>\
        <div class=\"fileText\"><a href=\"//i.example.org/1.jpg\">first.jpg</a></div>\
        <a href=\"//elsewhere.example.org/x.jpg\">not listed</a>\
        <div class=\"fileText\">File: <a href=\"//i.example.org/2.png\">second.png</a></div>\
        <div class=\"fileText\"><a href=\"//i.example.org/3.gif\">third.gif</a></div>\
        </body></html>";
    let links = extract_links(body).unwrap();
    assert_eq!(
        links,
        vec![
            link("https://i.example.org/1.jpg", "first.jpg"),
            link("https://i.example.org/2.png", "second.png"),
            link("https://i.example.org/3.gif", "third.gif"),
        ]
    );
}

#[test]
fn scheme_relative_href_gets_https() {
    let body = "<div class=\"fileText\"><a href=\"//example.com/f.jpg\">f.jpg</a></div>";
    let links = extract_links(body).unwrap();
    assert_eq!(links.len(), 1);
    assert_eq!(links[0].url, "https://example.com/f.jpg");
}

#[test]
fn title_attribute_wins_over_text() {
    let body = "<div class=\"fileText\">\
        <a href=\"//example.com/a.jpg\" title=\"full name.jpg\">full na(...).jpg</a></div>";
    let links = extract_links(body).unwrap();
    assert_eq!(links, vec![link("https://example.com/a.jpg", "full name.jpg")]);
}

#[test]
fn text_names_link_without_title() {
    let body = "<div class=\"fileText\"><a href=\"//example.com/b.jpg\">b.jpg</a></div>";
    let links = extract_links(body).unwrap();
    assert_eq!(links, vec![link("https://example.com/b.jpg", "b.jpg")]);
}

#[test]
fn nested_text_is_joined() {
    let body = "<div class=\"fileText\"><a href=\"//example.com/c.jpg\">pic<b>ture</b>.jpg</a></div>";
    let links = extract_links(body).unwrap();
    assert_eq!(links, vec![link("https://example.com/c.jpg", "picture.jpg")]);
}

#[test]
fn anchor_without_title_or_text_fails() {
    let body = "<div class=\"fileText\"><a href=\"//example.com/ok.jpg\">ok.jpg</a></div>\
        <div class=\"fileText\"><a href=\"//example.com/d.jpg\"></a></div>";
    assert_eq!(extract_links(body), Err(ScrapeError::MissingName));
}

#[test]
fn anchor_without_href_fails() {
    let body = "<div class=\"fileText\"><a title=\"e.jpg\">e.jpg</a></div>";
    assert_eq!(extract_links(body), Err(ScrapeError::MissingAttribute));
}

#[test]
fn first_failing_anchor_decides_the_error() {
    let body = "<div class=\"fileText\"><a>no target</a></div>\
        <div class=\"fileText\"><a href=\"//example.com/d.jpg\"></a></div>";
    assert_eq!(extract_links(body), Err(ScrapeError::MissingAttribute));
}

#[test]
fn root_page_404_aborts_before_parsing() {
    let body = "<div class=\"fileText\"><a href=\"//example.com/f.jpg\">f.jpg</a></div>";
    assert_eq!(extract_page(404, body), Err(ScrapeError::Fetch(404)));
    assert_eq!(extract_page(500, ""), Err(ScrapeError::Fetch(500)));
}

#[test]
fn root_page_200_is_extracted() {
    let body = "<div class=\"fileText\"><a href=\"//example.com/f.jpg\">f.jpg</a></div>";
    assert_eq!(extract_page(200, body), Ok(vec![link("https://example.com/f.jpg", "f.jpg")]));
}

#[test]
fn page_without_listing_yields_no_links() {
    let body = "<html><body><p>nothing here</p><a href=\"//example.com/x\">x</a></body></html>";
    assert_eq!(extract_links(body), Ok(vec![]));
    assert_eq!(extract_page(200, ""), Ok(vec![]));
}

#[test]
fn find_attr_takes_first_match() {
    let attrs = vec![
        ("class".to_string(), "x".to_string()),
        ("href".to_string(), "//a".to_string()),
        ("href".to_string(), "//b".to_string()),
    ];
    assert_eq!(find_attr(&attrs, &"href".to_string()), Some("//a".to_string()));
    assert_eq!(find_attr(&attrs, &"title".to_string()), None);
    assert_eq!(find_attr(&vec![], &"href".to_string()), None);
}

#[test]
fn join_texts_concatenates_in_order() {
    let texts = vec!["ab".to_string(), "".to_string(), "cd".to_string()];
    assert_eq!(join_texts(&texts), "abcd");
    assert_eq!(join_texts(&vec![]), "");
}

#[test]
fn link_from_anchor_cases() {
    assert_eq!(
        link_from_anchor(&anchor(&[("href", "//h/x.jpg"), ("title", "T")], &["text"])),
        Ok(link("https://h/x.jpg", "T"))
    );
    assert_eq!(
        link_from_anchor(&anchor(&[("href", "//h/x.jpg"), ("title", "")], &["text"])),
        Ok(link("https://h/x.jpg", ""))
    );
    assert_eq!(
        link_from_anchor(&anchor(&[("href", "//h/x.jpg")], &["te", "xt"])),
        Ok(link("https://h/x.jpg", "text"))
    );
    assert_eq!(
        link_from_anchor(&anchor(&[("href", "//h/x.jpg")], &[""])),
        Err(ScrapeError::MissingName)
    );
    assert_eq!(link_from_anchor(&anchor(&[("title", "T")], &[])), Err(ScrapeError::MissingAttribute));
}

#[test]
fn links_from_anchors_keeps_order() {
    let anchors = vec![
        anchor(&[("href", "//h/1")], &["one"]),
        anchor(&[("href", "//h/2"), ("title", "two")], &[]),
    ];
    assert_eq!(
        links_from_anchors(&anchors),
        Ok(vec![link("https://h/1", "one"), link("https://h/2", "two")])
    );
    assert_eq!(links_from_anchors(&vec![]), Ok(vec![]));
    let bad = vec![anchor(&[("href", "//h/1")], &["one"]), anchor(&[("href", "//h/2")], &[])];
    assert_eq!(links_from_anchors(&bad), Err(ScrapeError::MissingName));
}
