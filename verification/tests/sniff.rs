use feed_ingest::module::feed::entities::{Feed, FeedType};
use feed_ingest::module::feed::sniff::{classify_root, sniff_step};
use feed_ingest::service::xml::XmlEvent;

#[test]
fn rss_root_is_rss() {
    assert_eq!(Feed::sniff("<rss version=\"2.0\"><channel></channel></rss>"), FeedType::Rss);
}

#[test]
fn feed_root_is_atom() {
    assert_eq!(
        Feed::sniff("<?xml version=\"1.0\"?><feed xmlns=\"http://www.w3.org/2005/Atom\"></feed>"),
        FeedType::Atom
    );
}

#[test]
fn other_root_is_unknown() {
    assert_eq!(Feed::sniff("<html><body/></html>"), FeedType::Unknown);
}

#[test]
fn empty_document_is_unknown() {
    assert_eq!(Feed::sniff(""), FeedType::Unknown);
}

#[test]
fn text_without_markup_is_unknown() {
    assert_eq!(Feed::sniff("just some words"), FeedType::Unknown);
}

#[test]
fn unclosed_tag_is_unknown() {
    assert_eq!(Feed::sniff("<rss"), FeedType::Unknown);
}

#[test]
fn declaration_comment_and_space_before_root_do_not_matter() {
    let doc = "<?xml version=\"1.0\" encoding=\"UTF-8\"?>\n<!-- generated -->\n  <rss><channel/></rss>";
    assert_eq!(Feed::sniff(doc), FeedType::Rss);
}

#[test]
fn only_the_first_start_tag_counts() {
    assert_eq!(Feed::sniff("<opml><rss></rss></opml>"), FeedType::Unknown);
    assert_eq!(Feed::sniff("<rss><feed></feed></rss>"), FeedType::Rss);
}

#[test]
fn document_need_not_be_well_formed_after_root() {
    assert_eq!(Feed::sniff("<feed><entry></wrong>"), FeedType::Atom);
}

#[test]
fn self_closed_root_is_not_a_start_tag() {
    assert_eq!(Feed::sniff("<rss/>"), FeedType::Unknown);
}

#[test]
fn stray_end_tag_before_root_is_an_error() {
    assert_eq!(Feed::sniff("</x><rss></rss>"), FeedType::Unknown);
}

#[test]
fn root_is_classified_by_local_name() {
    assert_eq!(
        Feed::sniff("<atom:feed xmlns:atom=\"http://www.w3.org/2005/Atom\"></atom:feed>"),
        FeedType::Atom
    );
    assert_eq!(Feed::sniff("<x:rss></x:rss>"), FeedType::Rss);
}

#[test]
fn names_are_case_sensitive() {
    assert_eq!(Feed::sniff("<RSS></RSS>"), FeedType::Unknown);
    assert_eq!(Feed::sniff("<Feed></Feed>"), FeedType::Unknown);
}

#[test]
fn reader_can_be_handed_in() {
    let reader = quick_xml::Reader::from_str("<!DOCTYPE rss><rss></rss>");
    assert_eq!(Feed::determine_feed_type(reader), FeedType::Rss);
}

#[test]
fn sniffing_leaves_the_text_untouched() {
    let doc = String::from("<feed></feed>");
    assert_eq!(Feed::sniff(&doc), FeedType::Atom);
    assert_eq!(Feed::sniff(&doc), FeedType::Atom);
    assert_eq!(doc, "<feed></feed>");
}

#[test]
fn classify_root_exact() {
    assert_eq!(classify_root(b"rss"), FeedType::Rss);
    assert_eq!(classify_root(b"feed"), FeedType::Atom);
    assert_eq!(classify_root(b""), FeedType::Unknown);
    assert_eq!(classify_root(b"rs"), FeedType::Unknown);
    assert_eq!(classify_root(b"rsss"), FeedType::Unknown);
    assert_eq!(classify_root(b"feeds"), FeedType::Unknown);
    assert_eq!(classify_root(b"a:rss"), FeedType::Rss);
    assert_eq!(classify_root(b":feed"), FeedType::Atom);
    assert_eq!(classify_root(b"a:b:rss"), FeedType::Unknown);
    assert_eq!(classify_root(b"rss:"), FeedType::Unknown);
    assert_eq!(classify_root(b"rss:x"), FeedType::Unknown);
}

#[test]
fn sniff_step_exact() {
    assert_eq!(sniff_step(&XmlEvent::Start(b"rss".to_vec())), Some(FeedType::Rss));
    assert_eq!(sniff_step(&XmlEvent::Start(b"feed".to_vec())), Some(FeedType::Atom));
    assert_eq!(sniff_step(&XmlEvent::Start(b"html".to_vec())), Some(FeedType::Unknown));
    assert_eq!(sniff_step(&XmlEvent::Eof), Some(FeedType::Unknown));
    assert_eq!(sniff_step(&XmlEvent::Malformed), Some(FeedType::Unknown));
    assert_eq!(sniff_step(&XmlEvent::Other), None);
}
