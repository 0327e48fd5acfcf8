use feed_ingest::module::feed::article::entities::Article;
use feed_ingest::module::feed::dialect::{
    AtomContent, AtomEntry, AtomFeed, AtomLink, Category, Channel, Guid, Item, RssFeed,
};
use feed_ingest::module::feed::entities::{Feed, FeedArticle};
use feed_ingest::shared::errors::ErrorType;

fn item(title: &str, description: &str, pub_date: Option<&str>) -> Item {
    Item {
        title: title.to_string(),
        link: Some("http://example.org/item".to_string()),
        description: description.to_string(),
        author: Some("someone".to_string()),
        category: Some(vec![Category { domain: None, value: Some("news".to_string()) }]),
        comments: None,
        enclosure: None,
        guid: Some(Guid { is_permalink: Some(false), value: Some("g".to_string()) }),
        pub_date: pub_date.map(|d| d.to_string()),
        source: None,
    }
}

fn entry(title: &str, content: &str, published: Option<&str>) -> AtomEntry {
    AtomEntry {
        title: title.to_string(),
        links: Some(vec![AtomLink {
            href: Some("http://example.org/entry".to_string()),
            rel: None,
            link_type: None,
            title: None,
        }]),
        id: Some("urn:1".to_string()),
        updated: Some("2024-01-02T00:00:00Z".to_string()),
        published: published.map(|d| d.to_string()),
        authors: None,
        content: AtomContent { content_type: Some("html".to_string()), content: content.to_string() },
        summary: Some("never surfaced".to_string()),
    }
}

fn rss(title: &str, items: Vec<Item>) -> RssFeed {
    RssFeed {
        channel: Channel { title: title.to_string(), description: Some("about".to_string()), items },
    }
}

#[test]
fn rss_item_becomes_article() {
    let article = FeedArticle::from_rss(item("A1", "D1", Some("Mon, 01 Jan 2024")));
    assert_eq!(
        article,
        FeedArticle {
            id: None,
            title: "A1".to_string(),
            link: None,
            content: "D1".to_string(),
            pub_date: Some("Mon, 01 Jan 2024".to_string()),
        }
    );
}

#[test]
fn atom_entry_becomes_article() {
    let article = FeedArticle::from_atom(entry("E1", "<p>hi</p>", None));
    assert_eq!(
        article,
        FeedArticle {
            id: None,
            title: "E1".to_string(),
            link: None,
            content: "<p>hi</p>".to_string(),
            pub_date: None,
        }
    );
}

#[test]
fn stored_row_becomes_article() {
    let article = FeedArticle::from_model(12, "T".to_string(), "C".to_string());
    assert_eq!(
        article,
        FeedArticle {
            id: Some(12),
            title: "T".to_string(),
            link: None,
            content: "C".to_string(),
            pub_date: None,
        }
    );
}

#[test]
fn canonical_article_from_either_dialect() {
    let from_rss = Article::from_rss(item("A", "D", Some("d")));
    assert_eq!(from_rss.id, None);
    assert_eq!(from_rss.feed_id, None);
    assert_eq!(from_rss.title, "A");
    assert_eq!(from_rss.link, None);
    assert_eq!(from_rss.content, "D");
    assert_eq!(from_rss.pub_date, Some("d".to_string()));
    let from_atom = Article::from_atom(entry("A", "D", Some("d")));
    assert_eq!(from_atom, from_rss);
}

#[test]
fn rss_feed_normalizes_in_document_order() {
    let feed = Feed::from_rss(rss(
        "T",
        vec![item("A1", "D1", None), item("A2", "D2", Some("x")), item("A3", "D3", None)],
    ));
    assert_eq!(feed.id, None);
    assert_eq!(feed.title, "T");
    assert_eq!(feed.xml_url, "");
    assert_eq!(feed.link, None);
    assert_eq!(feed.description, None);
    assert_eq!(feed.category_id, None);
    let titles: Vec<&str> = feed.articles.iter().map(|a| a.title.as_str()).collect();
    assert_eq!(titles, vec!["A1", "A2", "A3"]);
    let contents: Vec<&str> = feed.articles.iter().map(|a| a.content.as_str()).collect();
    assert_eq!(contents, vec!["D1", "D2", "D3"]);
    assert_eq!(feed.articles[1].pub_date, Some("x".to_string()));
    assert!(feed.articles.iter().all(|a| a.id.is_none() && a.link.is_none()));
}

#[test]
fn rss_feed_without_items_has_no_articles() {
    let feed = Feed::from_rss(rss("Empty", vec![]));
    assert_eq!(feed.title, "Empty");
    assert!(feed.articles.is_empty());
}

#[test]
fn duplicate_items_are_kept() {
    let feed = Feed::from_rss(rss("T", vec![item("A", "D", None), item("A", "D", None)]));
    assert_eq!(feed.articles.len(), 2);
    assert_eq!(feed.articles[0], feed.articles[1]);
}

#[test]
fn atom_feed_normalizes_in_document_order() {
    let feed = Feed::from_atom(AtomFeed {
        title: "Atom".to_string(),
        subtitle: Some("sub".to_string()),
        entries: vec![entry("E1", "C1", Some("2024-01-01")), entry("E2", "C2", None)],
    });
    assert_eq!(feed.id, None);
    assert_eq!(feed.title, "Atom");
    assert_eq!(feed.xml_url, "");
    assert_eq!(feed.link, None);
    assert_eq!(feed.description, None);
    assert_eq!(feed.category_id, None);
    assert_eq!(feed.articles.len(), 2);
    assert_eq!(feed.articles[0].title, "E1");
    assert_eq!(feed.articles[0].content, "C1");
    assert_eq!(feed.articles[0].pub_date, Some("2024-01-01".to_string()));
    assert_eq!(feed.articles[1].title, "E2");
    assert_eq!(feed.articles[1].content, "C2");
    assert_eq!(feed.articles[1].pub_date, None);
}

#[test]
fn equivalent_documents_normalize_alike() {
    let from_rss = Feed::from_rss(rss(
        "Same",
        vec![item("One", "first", Some("d1")), item("Two", "second", None)],
    ));
    let from_atom = Feed::from_atom(AtomFeed {
        title: "Same".to_string(),
        subtitle: None,
        entries: vec![entry("One", "first", Some("d1")), entry("Two", "second", None)],
    });
    assert_eq!(from_rss, from_atom);
}

#[test]
fn decoded_rss_is_stamped_with_its_address() {
    let feed = Feed::from_rss_decoded(
        "http://example.org/rss".to_string(),
        Ok(rss("T", vec![item("A1", "D1", None)])),
    )
    .unwrap();
    assert_eq!(feed.xml_url, "http://example.org/rss");
    assert_eq!(feed.title, "T");
    assert_eq!(feed.articles.len(), 1);
    assert_eq!(feed.id, None);
}

#[test]
fn decoded_atom_is_stamped_with_its_address() {
    let feed = Feed::from_atom_decoded(
        "http://example.org/atom".to_string(),
        Ok(AtomFeed { title: "A".to_string(), subtitle: None, entries: vec![] }),
    )
    .unwrap();
    assert_eq!(feed.xml_url, "http://example.org/atom");
    assert_eq!(feed.title, "A");
    assert!(feed.articles.is_empty());
}

#[test]
fn decoder_failure_is_reported_with_its_diagnostic() {
    let rss_failure = Feed::from_rss_decoded("u".to_string(), Err("missing field".to_string()));
    assert_eq!(rss_failure, Err(ErrorType::XmlDeserialize("missing field".to_string())));
    let atom_failure = Feed::from_atom_decoded("u".to_string(), Err("bad entry".to_string()));
    assert_eq!(atom_failure, Err(ErrorType::XmlDeserialize("bad entry".to_string())));
}

#[test]
fn from_url_takes_the_rss_decoder_for_rss() {
    let doc = "<rss><channel><title>T</title></channel></rss>";
    let feed = Feed::from_url(
        "http://example.org/feed.xml".to_string(),
        doc,
        |text: &str| {
            assert_eq!(text, "<rss><channel><title>T</title></channel></rss>");
            Ok(rss("T", vec![item("A1", "D1", None)]))
        },
        |_text: &str| -> Result<AtomFeed, String> { panic!("not an atom document") },
    )
    .unwrap();
    assert_eq!(feed.title, "T");
    assert_eq!(feed.xml_url, "http://example.org/feed.xml");
    assert_eq!(feed.articles.len(), 1);
    assert_eq!(feed.articles[0].title, "A1");
    assert_eq!(feed.articles[0].content, "D1");
}

#[test]
fn from_url_takes_the_atom_decoder_for_atom() {
    let feed = Feed::from_url(
        "http://example.org/atom".to_string(),
        "<feed xmlns=\"http://www.w3.org/2005/Atom\"><title>A</title></feed>",
        |_text: &str| -> Result<RssFeed, String> { panic!("not an rss document") },
        |_text: &str| {
            Ok(AtomFeed {
                title: "A".to_string(),
                subtitle: None,
                entries: vec![entry("E", "C", None)],
            })
        },
    )
    .unwrap();
    assert_eq!(feed.title, "A");
    assert_eq!(feed.xml_url, "http://example.org/atom");
    assert_eq!(feed.articles[0].content, "C");
}

#[test]
fn from_url_rejects_an_unknown_document_without_decoding() {
    let outcome = Feed::from_url(
        "http://example.org/page".to_string(),
        "<html></html>",
        |_text: &str| -> Result<RssFeed, String> { panic!("must not decode") },
        |_text: &str| -> Result<AtomFeed, String> { panic!("must not decode") },
    );
    assert_eq!(outcome, Err(ErrorType::XmlBadFormat));
    let empty = Feed::from_url(
        "http://example.org/none".to_string(),
        "",
        |_text: &str| -> Result<RssFeed, String> { panic!("must not decode") },
        |_text: &str| -> Result<AtomFeed, String> { panic!("must not decode") },
    );
    assert_eq!(empty, Err(ErrorType::XmlBadFormat));
}

#[test]
fn from_url_reports_a_document_that_does_not_decode() {
    let outcome = Feed::from_url(
        "http://example.org/broken".to_string(),
        "<rss><channel></channel></rss>",
        |_text: &str| -> Result<RssFeed, String> { Err("missing field `title`".to_string()) },
        |_text: &str| -> Result<AtomFeed, String> { panic!("not an atom document") },
    );
    assert_eq!(outcome, Err(ErrorType::XmlDeserialize("missing field `title`".to_string())));
}
