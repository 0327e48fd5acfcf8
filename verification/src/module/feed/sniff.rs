use crate::module::feed::entities::{Feed, FeedType};
use crate::service::xml::{
    document_events, next_event, open_reader, pending_events, XmlEvent, XmlEventView,
};
use quick_xml::Reader;
use vstd::prelude::*;

verus! {

/// The byte `:` that parts a prefix from a local name.
pub const COLON: u8 = 0x3a;

/// The name `rss`, in bytes.
pub open spec fn rss_root() -> Seq<u8> {
    seq![0x72u8, 0x73u8, 0x73u8]
}

/// The name `feed`, in bytes.
pub open spec fn atom_root() -> Seq<u8> {
    seq![0x66u8, 0x65u8, 0x65u8, 0x64u8]
}

/// `at` is the place of the first colon in `name`.
pub open spec fn is_first_colon(name: Seq<u8>, at: int) -> bool {
    &&& 0 <= at < name.len()
    &&& name[at] == COLON
    &&& forall|k: int| 0 <= k < at ==> name[k] != COLON
}

/// The local part of a qualified name: what follows its first colon, or the
/// whole name where it has none.
pub open spec fn local_name(name: Seq<u8>) -> Seq<u8> {
    if exists|at: int| is_first_colon(name, at) {
        name.skip((choose|at: int| is_first_colon(name, at)) + 1)
    } else {
        name
    }
}

/// The dialect that a root element's qualified name announces.
pub open spec fn root_dialect(name: Seq<u8>) -> FeedType {
    if local_name(name) == rss_root() {
        FeedType::Rss
    } else if local_name(name) == atom_root() {
        FeedType::Atom
    } else {
        FeedType::Unknown
    }
}

/// What one event settles about the dialect: `Some` where it ends the search
/// (the first start tag decides; the end of the document and a tokenizer
/// error leave the dialect unknown), `None` where the search goes on.
pub open spec fn verdict(event: XmlEventView) -> Option<FeedType> {
    match event {
        XmlEventView::Start(name) => Some(root_dialect(name)),
        XmlEventView::Eof => Some(FeedType::Unknown),
        XmlEventView::Malformed => Some(FeedType::Unknown),
        _ => None,
    }
}

/// The dialect of a document, from its events: the verdict of the first
/// event that settles it, and `Unknown` where none does.
pub open spec fn sniff_events(events: Seq<XmlEventView>) -> FeedType
    decreases events.len(),
{
    if events.len() == 0 {
        FeedType::Unknown
    } else {
        match verdict(events[0]) {
            Some(kind) => kind,
            None => sniff_events(events.skip(1)),
        }
    }
}

/// A name has at most one first colon.
pub proof fn lemma_first_colon_unique(name: Seq<u8>, a: int, b: int)
    requires
        is_first_colon(name, a),
        is_first_colon(name, b),
    ensures
        a == b,
{
    if a < b {
        assert(name[a] != COLON);
    } else if b < a {
        assert(name[b] != COLON);
    }
}

/// Where the local part of `name` begins.
pub fn local_start(name: &[u8]) -> (start: usize)
    ensures
        start <= name@.len(),
        name@.skip(start as int) == local_name(name@),
        start == 0 <==> !exists|at: int| is_first_colon(name@, at),
        start > 0 ==> is_first_colon(name@, start - 1),
{
    let mut i: usize = 0;
    while i < name.len()
        invariant
            i <= name@.len(),
            forall|k: int| 0 <= k < i ==> name@[k] != COLON,
        decreases name@.len() - i,
    {
        if name[i] == COLON {
            proof {
                let found = i as int;
                assert(is_first_colon(name@, found));
                let chosen = choose|at: int| is_first_colon(name@, at);
                lemma_first_colon_unique(name@, found, chosen);
            }
            return i + 1;
        }
        i += 1;
    }
    proof {
        assert forall|at: int| !is_first_colon(name@, at) by {
            if 0 <= at < name@.len() {
                assert(name@[at] != COLON);
            }
        }
        assert(name@.skip(0) =~= name@);
    }
    0
}

/// Classifies a root element by the local part of its name.
pub fn classify_root(name: &[u8]) -> (kind: FeedType)
    ensures
        kind == root_dialect(name@),
{
    let start = local_start(name);
    let len = name.len() - start;
    let ghost local = name@.skip(start as int);
    if len == 3 && name[start] == 0x72 && name[start + 1] == 0x73 && name[start + 2] == 0x73 {
        assert(local =~= rss_root());
        FeedType::Rss
    } else if len == 4 && name[start] == 0x66 && name[start + 1] == 0x65 && name[start + 2]
        == 0x65 && name[start + 3] == 0x64 {
        assert(local =~= atom_root());
        assert(local[0] != rss_root()[0]);
        FeedType::Atom
    } else {
        proof {
            if local == rss_root() {
                assert(local.len() == 3);
                assert(local[0] == 0x72 && local[1] == 0x73 && local[2] == 0x73);
            }
            if local == atom_root() {
                assert(local.len() == 4);
                assert(local[0] == 0x66 && local[1] == 0x65 && local[2] == 0x65 && local[3]
                    == 0x64);
            }
        }
        FeedType::Unknown
    }
}

/// What one event settles about the dialect.
pub fn sniff_step(event: &XmlEvent) -> (settled: Option<FeedType>)
    ensures
        settled == verdict(event@),
{
    match event {
        XmlEvent::Start(name) => Some(classify_root(name.as_slice())),
        XmlEvent::Eof => Some(FeedType::Unknown),
        XmlEvent::Malformed => Some(FeedType::Unknown),
        _ => None,
    }
}

impl Feed {
    /// Reads events until one settles the dialect.
    pub fn determine_feed_type(reader: Reader<&[u8]>) -> (kind: FeedType)
        ensures
            kind == sniff_events(pending_events(reader)),
    {
        let mut rest = reader;
        loop
            invariant
                sniff_events(pending_events(rest)) == sniff_events(pending_events(reader)),
            decreases pending_events(rest).len(),
        {
            let event = next_event(&mut rest);
            match sniff_step(&event) {
                Some(kind) => {
                    return kind;
                },
                None => {},
            }
        }
    }

    /// The dialect of a document held as text.
    pub fn sniff(content: &str) -> (kind: FeedType)
        ensures
            kind == sniff_events(document_events(content@)),
    {
        Self::determine_feed_type(open_reader(content))
    }
}

/// The first event that settles the dialect decides it, whatever follows.
pub proof fn lemma_sniff_first_verdict(events: Seq<XmlEventView>, at: int)
    requires
        0 <= at < events.len(),
        verdict(events[at]) is Some,
        forall|k: int| 0 <= k < at ==> verdict(#[trigger] events[k]) is None,
    ensures
        sniff_events(events) == verdict(events[at])->Some_0,
    decreases at,
{
    if at > 0 {
        let rest = events.skip(1);
        assert(verdict(events[0]) is None);
        assert(rest[at - 1] == events[at]);
        assert forall|k: int| 0 <= k < at - 1 implies verdict(#[trigger] rest[k]) is None by {
            assert(rest[k] == events[k + 1]);
        }
        lemma_sniff_first_verdict(rest, at - 1);
    }
}

/// A document in which no event settles the dialect is of unknown dialect.
/// An empty document is one.
pub proof fn lemma_sniff_without_verdict(events: Seq<XmlEventView>)
    requires
        forall|k: int| 0 <= k < events.len() ==> verdict(#[trigger] events[k]) is None,
    ensures
        sniff_events(events) == FeedType::Unknown,
    decreases events.len(),
{
    if events.len() > 0 {
        let rest = events.skip(1);
        assert(verdict(events[0]) is None);
        assert forall|k: int| 0 <= k < rest.len() implies verdict(#[trigger] rest[k]) is None by {
            assert(rest[k] == events[k + 1]);
        }
        lemma_sniff_without_verdict(rest);
    }
}

/// A name without a colon is its own local part.
pub proof fn lemma_plain_name_is_local(name: Seq<u8>)
    requires
        forall|k: int| 0 <= k < name.len() ==> name[k] != COLON,
    ensures
        local_name(name) == name,
{
    assert forall|at: int| !is_first_colon(name, at) by {
        if 0 <= at < name.len() {
            assert(name[at] != COLON);
        }
    }
}

/// A document whose root element is `rss` is RSS, one whose root element is
/// `feed` is Atom, and one with any other root is of unknown dialect; so is
/// one that ends, or that the tokenizer rejects, before any start tag.
/// What stands before the root — a declaration, comments, white space —
/// does not matter.
pub proof fn lemma_sniff_by_root(events: Seq<XmlEventView>, at: int)
    requires
        0 <= at < events.len(),
        !(events[at] is Other),
        forall|k: int| 0 <= k < at ==> (#[trigger] events[k]) is Other,
    ensures
        events[at] matches XmlEventView::Start(name) ==> sniff_events(events) == root_dialect(
            name,
        ),
        events[at] == XmlEventView::Start(rss_root()) ==> sniff_events(events) == FeedType::Rss,
        events[at] == XmlEventView::Start(atom_root()) ==> sniff_events(events)
            == FeedType::Atom,
        events[at] is Eof || events[at] is Malformed ==> sniff_events(events)
            == FeedType::Unknown,
{
    assert forall|k: int| 0 <= k < at implies verdict(#[trigger] events[k]) is None by {
        assert(events[k] is Other);
    }
    lemma_sniff_first_verdict(events, at);
    lemma_plain_name_is_local(rss_root());
    lemma_plain_name_is_local(atom_root());
    assert(rss_root().len() != atom_root().len());
}

} // verus!
