//! The XML reader and writer behind a pass, and what a pass may rely on of
//! them.
//!
//! The reader parses a document held in memory; the writer fills a buffer in
//! memory. How the reader parses and how the writer renders is their
//! business, and has names here rather than descriptions: the events of a
//! document, the picture of an event, what the writer answers to what it
//! is handed and what it renders for it. Neither looks at anything but what
//! it holds and what it is given, so each name stands for one answer.

use crate::events::{ItemView, XmlAttribute, XmlItem};
use crate::matching::Written;
use vstd::prelude::*;
use xml::reader::XmlEvent;

verus! {

/// `xml::reader::XmlEvent`, an event as the reader hands it out. Nothing of
/// what it holds is known here.
#[verifier::external_type_specification]
#[verifier::external_body]
pub struct ExReaderEvent(xml::reader::XmlEvent);

/// `xml::reader::Error`, the reader's complaint about a document that does
/// not parse. Nothing of what it holds is known here.
#[verifier::external_type_specification]
#[verifier::external_body]
pub struct ExReaderError(xml::reader::Error);

/// `xml::writer::EventWriter`, the writer with the sink that it fills.
/// Nothing of what it holds is known here.
#[verifier::external_type_specification]
#[verifier::external_body]
#[verifier::reject_recursive_types(W)]
pub struct ExEventWriter<W>(xml::writer::EventWriter<W>);

/// `xml::writer::Error`, the writer's complaint about an event that it does
/// not accept. Nothing of what it holds is known here.
#[verifier::external_type_specification]
#[verifier::external_body]
pub struct ExWriterError(xml::writer::Error);

/// A document in memory, read event by event through
/// `xml::reader::EventReader` with its default configuration. The reader
/// itself is hidden: all that is known of it is what `source_events`,
/// `source_fails` and `parsed` name.
#[verifier::external_body]
pub struct XmlSource<'a> {
    reader: xml::reader::EventReader<&'a [u8]>,
}

/// The events that the reader will still hand out before it ends, in order.
/// The end is either the end of the document or the first thing that does
/// not parse; neither is part of the sequence. The reader parses bytes in
/// memory, so what it will hand out is settled by what it holds.
pub uninterp spec fn source_events(source: XmlSource) -> Seq<xml::reader::XmlEvent>;

/// The reader will end on something that does not parse, not on the end of
/// the document.
pub uninterp spec fn source_fails(source: XmlSource) -> bool;

/// What the reader makes of a document.
pub struct Parsed {
    /// The events that the reader hands out before it ends, in order.
    pub events: Seq<xml::reader::XmlEvent>,
    /// Whether the reader ends on something that does not parse, not on the
    /// end of the document.
    pub fails: bool,
}

/// What a reader with the default configuration makes of the document
/// `input`. The reader parses without looking at anything but the bytes, so
/// the same bytes give the same events wherever they are read.
pub uninterp spec fn parsed(input: Seq<u8>) -> Parsed;

/// The plain picture of an event: its kind, and of an element's start or
/// end, of text, of a comment and of a CDATA section the local names, the
/// attributes with their local names and values, and the text.
pub uninterp spec fn picture(event: xml::reader::XmlEvent) -> ItemView;

/// The plain pictures of `events`, in their order.
pub open spec fn pictures(events: Seq<xml::reader::XmlEvent>) -> Seq<ItemView> {
    Seq::new(events.len(), |k: int| picture(events[k]))
}

/// What is handed to the writer in one call.
pub enum Handed {
    /// An event, to be written as it was read.
    Event(xml::reader::XmlEvent),
    /// Character data with this text.
    Text(Seq<char>),
}

/// What `handed` is in the account of a pass: an event forwarded, or a text
/// put in the place of one.
pub open spec fn written_of(handed: Handed) -> Written {
    match handed {
        Handed::Event(event) => Written::Forwarded(picture(event)),
        Handed::Text(text) => Written::Replaced(text),
    }
}

/// The bytes that the writer has put into its buffer so far.
pub uninterp spec fn writer_bytes(writer: xml::writer::EventWriter<Vec<u8>>) -> Seq<u8>;

/// Whether the writer, as it stands, accepts `what`.
pub uninterp spec fn writer_takes(
    writer: xml::writer::EventWriter<Vec<u8>>,
    what: Handed,
) -> bool;

/// The bytes that the writer, as it stands, puts into its buffer when it is
/// handed `what`, whether it accepts it or not.
pub uninterp spec fn writer_renders(
    writer: xml::writer::EventWriter<Vec<u8>>,
    what: Handed,
) -> Seq<u8>;

/// An event as the reader handed it out, with the plain picture of it that
/// the rules read.
pub struct ReadEvent {
    raw: xml::reader::XmlEvent,
    item: XmlItem,
}

impl ReadEvent {
    /// The event as the reader handed it out.
    pub closed spec fn raw_view(&self) -> xml::reader::XmlEvent {
        self.raw
    }

    /// The plain picture of the event.
    pub closed spec fn item_view(&self) -> ItemView {
        self.item.deep_view()
    }

    /// The plain picture of the event.
    pub fn item(&self) -> (item: &XmlItem)
        ensures
            item.deep_view() == self.item_view(),
    {
        &self.item
    }
}

/// `xml::reader::EventReader::new` on a byte slice. The reader it makes
/// has all of the document before it: what it will hand out is what a
/// reader makes of these bytes.
#[verifier::external_body]
fn open_reader<'a>(input: &'a [u8]) -> (source: XmlSource<'a>)
    ensures
        source_events(source) == parsed(input@).events,
        source_fails(source) == parsed(input@).fails,
{
    XmlSource { reader: xml::reader::EventReader::new(input) }
}

/// `xml::reader::EventReader::next`.
///
/// While events are left before the end, the call hands out the first of
/// them, which is not the end of the document, and the rest stay. After
/// them it hands out the end of the document, or fails if the reader ends
/// on something that does not parse; it does so again if it is called
/// again.
#[verifier::external_body]
fn next_raw(source: &mut XmlSource) -> (result: Result<xml::reader::XmlEvent, xml::reader::Error>)
    ensures
        source_fails(*final(source)) == source_fails(*old(source)),
        source_events(*old(source)).len() > 0 ==> (result matches Ok(event) && event
            == source_events(*old(source))[0] && !(picture(event) is EndDocument)
            && source_events(*final(source)) == source_events(*old(source)).drop_first()),
        source_events(*old(source)).len() == 0 ==> source_events(*final(source)).len() == 0,
        source_events(*old(source)).len() == 0 && !source_fails(*old(source)) ==> (
        result matches Ok(event) && picture(event) is EndDocument),
        source_events(*old(source)).len() == 0 && source_fails(*old(source)) ==> result is Err,
{
    source.reader.next()
}

/// Copies out of an `xml::reader::XmlEvent` what its picture holds: the
/// kind of each of the nine kinds of event, local names, attributes and
/// text.
#[verifier::external_body]
fn picture_of(raw: &xml::reader::XmlEvent) -> (item: XmlItem)
    ensures
        item.deep_view() == picture(*raw),
{
    match raw {
        XmlEvent::StartDocument { .. } => XmlItem::StartDocument,
        XmlEvent::EndDocument => XmlItem::EndDocument,
        XmlEvent::ProcessingInstruction { .. } => XmlItem::ProcessingInstruction,
        XmlEvent::StartElement { name, attributes, .. } => XmlItem::StartElement {
            name: name.local_name.clone(),
            attributes: attributes.iter().map(|a| XmlAttribute::new(&a.name.local_name, &a.value)).collect(),
        },
        XmlEvent::EndElement { name } => XmlItem::EndElement { name: name.local_name.clone() },
        XmlEvent::CData(text) => XmlItem::CData(text.clone()),
        XmlEvent::Comment(text) => XmlItem::Comment(text.clone()),
        XmlEvent::Characters(text) => XmlItem::Characters(text.clone()),
        XmlEvent::Whitespace(text) => XmlItem::Whitespace(text.clone()),
    }
}

/// The next event of the document, with its picture.
pub(crate) fn next_event(source: &mut XmlSource) -> (result: Result<ReadEvent, xml::reader::Error>)
    ensures
        source_fails(*final(source)) == source_fails(*old(source)),
        result matches Ok(event) ==> event.item_view() == picture(event.raw_view()),
        source_events(*old(source)).len() > 0 ==> (result matches Ok(event) && event.raw_view()
            == source_events(*old(source))[0] && !(event.item_view() is EndDocument)
            && source_events(*final(source)) == source_events(*old(source)).drop_first()),
        source_events(*old(source)).len() == 0 ==> source_events(*final(source)).len() == 0,
        source_events(*old(source)).len() == 0 && !source_fails(*old(source)) ==> (
        result matches Ok(event) && event.item_view() is EndDocument),
        source_events(*old(source)).len() == 0 && source_fails(*old(source)) ==> result is Err,
{
    match next_raw(source) {
        Ok(raw) => {
            let item = picture_of(&raw);
            Ok(ReadEvent { raw, item })
        },
        Err(error) => Err(error),
    }
}

/// `xml::writer::EventWriter::new` on an empty buffer. The writer takes the
/// buffer as it is and writes nothing before its first event.
#[verifier::external_body]
fn open_writer() -> (writer: xml::writer::EventWriter<Vec<u8>>)
    ensures
        writer_bytes(writer) == Seq::<u8>::empty(),
{
    xml::writer::EventWriter::new(Vec::new())
}

/// `xml::reader::XmlEvent::as_writer_event` and
/// `xml::writer::EventWriter::write`: writes the event as it was read. The
/// end of the document has no writer event and writes nothing.
///
/// The writer fills memory and looks at nothing but its own state and the
/// event: whether it accepts the event and what it puts into its buffer
/// are what `writer_takes` and `writer_renders` name. What it renders comes
/// after what the buffer holds already.
#[verifier::external_body]
fn write_event(
    writer: &mut xml::writer::EventWriter<Vec<u8>>,
    event: &xml::reader::XmlEvent,
) -> (result: Result<(), xml::writer::Error>)
    ensures
        result is Ok <==> writer_takes(*old(writer), Handed::Event(*event)),
        writer_bytes(*final(writer)) == writer_bytes(*old(writer)) + writer_renders(
            *old(writer),
            Handed::Event(*event),
        ),
{
    match event.as_writer_event() {
        Some(out) => writer.write(out),
        None => Ok(()),
    }
}

/// `xml::writer::EventWriter::write` with character data.
///
/// Whether the writer accepts the text and what it puts into its buffer
/// are what `writer_takes` and `writer_renders` name. What it renders comes
/// after what the buffer holds already.
#[verifier::external_body]
fn write_characters(writer: &mut xml::writer::EventWriter<Vec<u8>>, text: &str) -> (result:
    Result<(), xml::writer::Error>)
    ensures
        result is Ok <==> writer_takes(*old(writer), Handed::Text(text@)),
        writer_bytes(*final(writer)) == writer_bytes(*old(writer)) + writer_renders(
            *old(writer),
            Handed::Text(text@),
        ),
{
    writer.write(xml::writer::XmlEvent::Characters(text))
}

/// `xml::writer::EventWriter::into_inner`: hands out the writer's buffer
/// as it stands.
#[verifier::external_body]
fn close_writer(writer: xml::writer::EventWriter<Vec<u8>>) -> (bytes: Vec<u8>)
    ensures
        bytes@ == writer_bytes(writer),
{
    writer.into_inner()
}

impl<'a> XmlSource<'a> {
    /// A reader at the start of the document `input`: it will hand out
    /// the events of that document, and fail if the document does not parse
    /// to its end.
    pub fn new(input: &'a [u8]) -> (source: XmlSource<'a>)
        ensures
            source_events(source) == parsed(input@).events,
            source_fails(source) == parsed(input@).fails,
    {
        open_reader(input)
    }
}

/// An XML writer into memory that keeps account of what a pass hands to
/// it and of what the writer answered.
pub struct XmlSink {
    writer: xml::writer::EventWriter<Vec<u8>>,
    log: Ghost<Seq<(Handed, bool)>>,
}

impl XmlSink {
    /// What has been handed to the writer so far, in order.
    pub closed spec fn handed(&self) -> Seq<Handed> {
        Seq::new(self.log@.len(), |i: int| self.log@[i].0)
    }

    /// For each thing handed to the writer so far, whether the writer
    /// accepted it.
    pub closed spec fn taken(&self) -> Seq<bool> {
        Seq::new(self.log@.len(), |i: int| self.log@[i].1)
    }

    /// What has been handed to the writer so far, as a pass accounts for
    /// it: the pictures of the events forwarded, and the texts put in the
    /// place of events.
    pub closed spec fn written(&self) -> Seq<Written> {
        Seq::new(self.log@.len(), |i: int| written_of(self.log@[i].0))
    }

    /// The bytes of the document that the writer has rendered so far.
    pub closed spec fn rendered(&self) -> Seq<u8> {
        writer_bytes(self.writer)
    }

    /// Whether the writer, as it stands, accepts `what`.
    pub closed spec fn takes(&self, what: Handed) -> bool {
        writer_takes(self.writer, what)
    }

    /// The bytes that the writer, as it stands, renders for `what`.
    pub closed spec fn renders(&self, what: Handed) -> Seq<u8> {
        writer_renders(self.writer, what)
    }

    /// The three accounts speak of the same calls: they have one entry for
    /// each, and the account of a pass is that of what was handed over.
    pub proof fn lemma_accounts_agree(&self)
        ensures
            self.taken().len() == self.handed().len(),
            self.written().len() == self.handed().len(),
            forall|i: int|
                0 <= i < self.handed().len() ==> #[trigger] self.written()[i] == written_of(
                    self.handed()[i],
                ),
    {
    }

    /// A writer to which nothing has been handed yet, and which has
    /// rendered nothing.
    pub fn new() -> (sink: XmlSink)
        ensures
            sink.handed() == Seq::<Handed>::empty(),
            sink.taken() == Seq::<bool>::empty(),
            sink.written() == Seq::<Written>::empty(),
            sink.rendered() == Seq::<u8>::empty(),
    {
        let sink = XmlSink { writer: open_writer(), log: Ghost(Seq::empty()) };
        assert(sink.handed() =~= Seq::<Handed>::empty());
        assert(sink.taken() =~= Seq::<bool>::empty());
        assert(sink.written() =~= Seq::<Written>::empty());
        sink
    }

    /// Hands `event` to the writer as it was read, and returns the writer's
    /// answer. The writer puts what it renders after what it had rendered.
    pub fn forward(&mut self, event: &ReadEvent) -> (result: Result<(), xml::writer::Error>)
        ensures
            result is Ok <==> old(self).takes(Handed::Event(event.raw_view())),
            final(self).rendered() == old(self).rendered() + old(self).renders(
                Handed::Event(event.raw_view()),
            ),
            final(self).handed() == old(self).handed().push(Handed::Event(event.raw_view())),
            final(self).taken() == old(self).taken().push(result is Ok),
            final(self).written() == old(self).written().push(
                Written::Forwarded(picture(event.raw_view())),
            ),
    {
        let result = write_event(&mut self.writer, &event.raw);
        let ghost entry = (Handed::Event(event.raw_view()), result is Ok);
        self.log = Ghost(self.log@.push(entry));
        proof {
            assert(self.handed() =~= old(self).handed().push(entry.0));
            assert(self.taken() =~= old(self).taken().push(entry.1));
            assert(self.written() =~= old(self).written().push(written_of(entry.0)));
        }
        result
    }

    /// Hands character data with the text `text` to the writer, and returns
    /// the writer's answer. The writer puts what it renders after what it
    /// had rendered.
    pub fn replace(&mut self, text: &str) -> (result: Result<(), xml::writer::Error>)
        ensures
            result is Ok <==> old(self).takes(Handed::Text(text@)),
            final(self).rendered() == old(self).rendered() + old(self).renders(
                Handed::Text(text@),
            ),
            final(self).handed() == old(self).handed().push(Handed::Text(text@)),
            final(self).taken() == old(self).taken().push(result is Ok),
            final(self).written() == old(self).written().push(Written::Replaced(text@)),
    {
        let result = write_characters(&mut self.writer, text);
        let ghost entry = (Handed::Text(text@), result is Ok);
        self.log = Ghost(self.log@.push(entry));
        proof {
            assert(self.handed() =~= old(self).handed().push(entry.0));
            assert(self.taken() =~= old(self).taken().push(entry.1));
            assert(self.written() =~= old(self).written().push(written_of(entry.0)));
        }
        result
    }

    /// The document that the writer has rendered, as far as it has come.
    pub fn into_bytes(self) -> (bytes: Vec<u8>)
        ensures
            bytes@ == self.rendered(),
    {
        close_writer(self.writer)
    }
}

} // verus!
