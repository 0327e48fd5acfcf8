use quick_xml::events::Event;
use quick_xml::Reader;
use vstd::prelude::*;

verus! {

/// One step of an XML token stream, as far as dialect detection reads it.
#[derive(Debug, Clone, PartialEq, Eq)]
pub enum XmlEvent {
    /// A start tag, with its raw qualified name exactly as written.
    Start(Vec<u8>),
    /// Any other token: an end tag, an empty element, text, character data,
    /// a comment, a declaration, a processing instruction or a doctype.
    Other,
    /// The end of the document.
    Eof,
    /// The tokenizer rejected the input at this point.
    Malformed,
}

/// Mathematical value of an [`XmlEvent`].
pub enum XmlEventView {
    Start(Seq<u8>),
    Other,
    Eof,
    Malformed,
}

impl View for XmlEvent {
    type V = XmlEventView;

    open spec fn view(&self) -> XmlEventView {
        match self {
            XmlEvent::Start(name) => XmlEventView::Start(name@),
            XmlEvent::Other => XmlEventView::Other,
            XmlEvent::Eof => XmlEventView::Eof,
            XmlEvent::Malformed => XmlEventView::Malformed,
        }
    }
}

/// `quick_xml::Reader`, carried through as an opaque value.
#[verifier::external_type_specification]
#[verifier::external_body]
#[verifier::reject_recursive_types(R)]
pub struct ExReader<R>(Reader<R>);

/// What a reader over a byte slice has yet to deliver: the answers that
/// reading it again and again will give, in order, up to but not including
/// the end of the document. An answer that is an error stands in the
/// sequence as `Malformed`. Nothing is said here of what the events of any
/// particular input are.
pub uninterp spec fn pending_events(reader: Reader<&[u8]>) -> Seq<XmlEventView>;

/// The events of a whole document, held as text, read from its first byte
/// with the reader's default settings. Nothing is said here of what the
/// events of any particular text are.
pub uninterp spec fn document_events(text: Seq<char>) -> Seq<XmlEventView>;

/// `quick_xml::Reader::from_str`. Trusted: the new reader stands at the
/// start of `text` and has the events of that document pending.
#[verifier::external_body]
pub(crate) fn open_reader(text: &str) -> (reader: Reader<&[u8]>)
    ensures
        pending_events(reader) == document_events(text@),
{
    Reader::from_str(text)
}

/// `quick_xml::Reader::read_event_into`, with the event cut down to what
/// [`XmlEvent`] holds. Trusted: the answer is the first pending event, and
/// the reader then has the rest pending; once nothing is pending the answer
/// is `Eof`, and stays so. After a `Malformed` answer nothing is claimed of
/// where the reader stands.
#[verifier::external_body]
pub(crate) fn next_event(reader: &mut Reader<&[u8]>) -> (event: XmlEvent)
    ensures
        pending_events(*old(reader)).len() == 0 ==> event@ == XmlEventView::Eof
            && pending_events(*final(reader)).len() == 0,
        pending_events(*old(reader)).len() > 0 ==> event@ == pending_events(*old(reader))[0]
            && event@ != XmlEventView::Eof,
        pending_events(*old(reader)).len() > 0 && event@ != XmlEventView::Malformed
            ==> pending_events(*final(reader)) == pending_events(*old(reader)).skip(1),
{
    let mut buf = Vec::new();
    match reader.read_event_into(&mut buf) {
        Ok(Event::Start(e)) => XmlEvent::Start(e.name().as_ref().to_vec()),
        Ok(Event::Eof) => XmlEvent::Eof,
        Ok(_) => XmlEvent::Other,
        Err(_) => XmlEvent::Malformed,
    }
}

} // verus!
