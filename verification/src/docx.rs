//! Reading the text of a DOCX body (`word/document.xml`): the whole text for
//! summarizing, or one entry per paragraph for translation.

use quick_xml::events::Event;
use quick_xml::Reader;
use vstd::prelude::*;

use crate::text::{push_char, push_str, str_eq, to_owned_string, trim, trim_end, trim_str};

verus! {

/// One XML event of a DOCX body, with element names and text as written
/// (`w:p`, `a &amp; b`): text is unescaped only where a reader uses it.
#[derive(Debug, Clone, PartialEq, Eq)]
pub enum XmlEvent {
    Start(String),
    Empty(String),
    Text(String),
    End(String),
    /// Any event the readers ignore (comments, declarations, CDATA, ...).
    Other,
}

/// An XML event as a mathematical value.
pub enum XmlEventView {
    Start(Seq<char>),
    Empty(Seq<char>),
    Text(Seq<char>),
    End(Seq<char>),
    Other,
}

impl View for XmlEvent {
    type V = XmlEventView;

    open spec fn view(&self) -> XmlEventView {
        match self {
            XmlEvent::Start(n) => XmlEventView::Start(n@),
            XmlEvent::Empty(n) => XmlEventView::Empty(n@),
            XmlEvent::Text(t) => XmlEventView::Text(t@),
            XmlEvent::End(n) => XmlEventView::End(n@),
            XmlEvent::Other => XmlEventView::Other,
        }
    }
}

/// The events of a list.
pub open spec fn event_views(events: Seq<XmlEvent>) -> Seq<XmlEventView> {
    events.map_values(|e: XmlEvent| e@)
}

/// The events `quick_xml` reads from an XML document, up to the end of the
/// input, text left escaped; `None` when it reports a syntax error.
pub uninterp spec fn xml_events(xml: Seq<char>) -> Option<Seq<XmlEventView>>;

/// What `quick_xml::escape::unescape` makes of escaped XML text; `None`
/// when it refuses an entity.
pub uninterp spec fn xml_unescape(raw: Seq<char>) -> Option<Seq<char>>;

/// Malformed DOCX body XML.
#[derive(Debug, Clone, PartialEq, Eq)]
pub struct XmlError {
    pub message: String,
}

impl XmlError {
    /// An error with the parser's message.
    pub fn new(message: String) -> (res: Self)
        ensures
            res.message == message,
    {
        XmlError { message }
    }
}

/// Reads the events of `xml` with `quick_xml::Reader` (default
/// configuration), text as written; the result is the named function
/// `xml_events` of the input.
#[verifier::external_body]
pub(crate) fn read_xml_events(xml: &str) -> (res: Result<Vec<XmlEvent>, XmlError>)
    ensures
        match res {
            Ok(events) => xml_events(xml@) == Some(event_views(events@)),
            Err(_) => xml_events(xml@) is None,
        },
{
    let mut reader = Reader::from_str(xml);
    let mut events = vec![];
    loop {
        events.push(match reader.read_event().map_err(|e| XmlError::new(e.to_string()))? {
            Event::Start(e) => XmlEvent::Start(String::from_utf8_lossy(e.name().0).into()),
            Event::Empty(e) => XmlEvent::Empty(String::from_utf8_lossy(e.name().0).into()),
            Event::Text(e) => XmlEvent::Text(String::from_utf8_lossy(&e).into()),
            Event::End(e) => XmlEvent::End(String::from_utf8_lossy(e.name().0).into()),
            Event::Eof => return Ok(events),
            _ => XmlEvent::Other,
        });
    }
}

/// Unescapes XML text with `quick_xml::escape::unescape`, which is what
/// `BytesText::unescape` does after reading UTF-8 text; the result is the
/// named function `xml_unescape` of the input.
#[verifier::external_body]
fn unescape_text(raw: &str) -> (res: Result<String, XmlError>)
    ensures
        match res {
            Ok(text) => xml_unescape(raw@) == Some(text@),
            Err(_) => xml_unescape(raw@) is None,
        },
{
    match quick_xml::escape::unescape(raw) {
        Ok(text) => Ok(text.into_owned()),
        Err(err) => Err(XmlError::new(err.to_string())),
    }
}

/// The event names the readers react to.
pub open spec fn is_name(n: Seq<char>, lit: &str) -> bool {
    n == lit@
}

/// Plain text of the body so far, and whether a `w:t` element is open.
pub open spec fn text_state(events: Seq<XmlEventView>) -> (Seq<char>, bool)
    decreases events.len(),
{
    if events.len() == 0 {
        (Seq::empty(), false)
    } else {
        let (out, in_text) = text_state(events.drop_last());
        match events.last() {
            XmlEventView::Start(n) => if n == "w:p"@ {
                (if out.len() > 0 { out + "\n\n"@ } else { out }, in_text)
            } else if n == "w:tab"@ {
                (out.push('\t'), in_text)
            } else if n == "w:br"@ {
                (out.push('\n'), in_text)
            } else if n == "w:t"@ {
                (out, true)
            } else {
                (out, in_text)
            },
            XmlEventView::Empty(n) => if n == "w:p"@ {
                (if out.len() > 0 { out + "\n\n"@ } else { out }, in_text)
            } else if n == "w:tab"@ {
                (out.push('\t'), in_text)
            } else if n == "w:br"@ {
                (out.push('\n'), in_text)
            } else {
                (out, in_text)
            },
            XmlEventView::Text(t) => if in_text {
                match xml_unescape(t) {
                    Some(u) => (out + u, in_text),
                    None => (out, in_text),
                }
            } else {
                (out, in_text)
            },
            XmlEventView::End(n) => if n == "w:t"@ {
                (out, false)
            } else {
                (out, in_text)
            },
            XmlEventView::Other => (out, in_text),
        }
    }
}

/// The text reader keeps what it has read and adds to its end: a line
/// break (`w:br`) adds one newline, a tab (`w:tab`) one tab, a paragraph
/// (`w:p`) a blank line once there is text, a text inside `w:t` its
/// unescaped characters; an element end changes no text.
pub proof fn lemma_text_grows_by_element(events: Seq<XmlEventView>, e: XmlEventView)
    ensures
        e == XmlEventView::Empty("w:br"@) ==> text_state(events.push(e)).0 == text_state(events).0.push('\n'),
        e == XmlEventView::Start("w:br"@) ==> text_state(events.push(e)).0 == text_state(events).0.push('\n'),
        e == XmlEventView::Empty("w:tab"@) ==> text_state(events.push(e)).0 == text_state(events).0.push('\t'),
        e == XmlEventView::Start("w:tab"@) ==> text_state(events.push(e)).0 == text_state(events).0.push('\t'),
        (e == XmlEventView::Start("w:p"@) || e == XmlEventView::Empty("w:p"@)) ==> text_state(events.push(e)).0
            == if text_state(events).0.len() > 0 {
            text_state(events).0 + seq!['\n', '\n']
        } else {
            text_state(events).0
        },
        (e matches XmlEventView::Text(t) && text_state(events).1 && xml_unescape(t) is Some) ==> text_state(
            events.push(e),
        ).0 == text_state(events).0 + xml_unescape(e->Text_0)->0,
        (e matches XmlEventView::Text(t) && !text_state(events).1) ==> text_state(events.push(e)).0 == text_state(
            events,
        ).0,
        e is End ==> text_state(events.push(e)).0 == text_state(events).0,
        e is Other ==> text_state(events.push(e)) == text_state(events),
{
    lemma_element_names_distinct();
    reveal_strlit("\n\n");
    assert(events.push(e).drop_last() =~= events);
    assert(events.push(e).last() == e);
}

/// The element names the readers react to differ from one another.
proof fn lemma_element_names_distinct()
    ensures
        "w:br"@ != "w:p"@,
        "w:br"@ != "w:tab"@,
        "w:br"@ != "w:t"@,
        "w:tab"@ != "w:p"@,
        "w:tab"@ != "w:t"@,
        "w:p"@ != "w:t"@,
{
    reveal_strlit("w:br");
    reveal_strlit("w:tab");
    reveal_strlit("w:p");
    reveal_strlit("w:t");
    assert("w:br"@.len() == 4);
    assert("w:tab"@.len() == 5);
    assert("w:p"@[2] != "w:t"@[2]);
}

/// The paragraph reader adds a line break (`w:br`) as one newline and a tab
/// (`w:tab`) as one tab to the open paragraph, and keeps the paragraphs
/// already read.
pub proof fn lemma_paragraph_grows_by_break(events: Seq<XmlEventView>, e: XmlEventView)
    ensures
        (e == XmlEventView::Empty("w:br"@) || e == XmlEventView::Start("w:br"@)) ==> paragraph_state(events.push(e)).current
            == paragraph_state(events).current.push('\n') && paragraph_state(events.push(e)).paragraphs
            == paragraph_state(events).paragraphs,
        (e == XmlEventView::Empty("w:tab"@) || e == XmlEventView::Start("w:tab"@)) ==> paragraph_state(events.push(e)).current
            == paragraph_state(events).current.push('\t') && paragraph_state(events.push(e)).paragraphs
            == paragraph_state(events).paragraphs,
{
    lemma_element_names_distinct();
    assert(events.push(e).drop_last() =~= events);
    assert(events.push(e).last() == e);
}

/// Every text event inside a `w:t` element unescapes.
pub open spec fn texts_unescape(events: Seq<XmlEventView>) -> bool {
    forall|i: int|
        0 <= i < events.len() && #[trigger] events[i] is Text && text_state(events.subrange(0, i)).1
            ==> xml_unescape(events[i]->Text_0) is Some
}

/// Plain text of a DOCX body: paragraphs separated by a blank line, tabs and
/// line breaks kept, surrounding whitespace trimmed.
pub open spec fn body_text(events: Seq<XmlEventView>) -> Seq<char> {
    trim(text_state(events).0)
}

/// The plain text of a DOCX body given as events; an error when a text
/// inside a `w:t` element does not unescape.
pub fn text_from_events(events: &Vec<XmlEvent>) -> (res: Result<String, XmlError>)
    ensures
        match res {
            Ok(text) => texts_unescape(event_views(events@)) && text@ == body_text(event_views(events@)),
            Err(_) => !texts_unescape(event_views(events@)),
        },
{
    let ghost evs = event_views(events@);
    let mut out = String::new();
    let mut in_text = false;
    let mut i: usize = 0;
    while i < events.len()
        invariant
            i <= events.len(),
            evs == event_views(events@),
            (out@, in_text) == text_state(evs.subrange(0, i as int)),
            forall|j: int|
                0 <= j < i && #[trigger] evs[j] is Text && text_state(evs.subrange(0, j)).1
                    ==> xml_unescape(evs[j]->Text_0) is Some,
        decreases events.len() - i,
    {
        proof {
            assert(evs.subrange(0, i + 1).drop_last() =~= evs.subrange(0, i as int));
        }
        match &events[i] {
            XmlEvent::Start(n) => {
                if str_eq(n.as_str(), "w:p") {
                    if !out.as_str().is_empty() {
                        push_str(&mut out, "\n\n");
                    }
                } else if str_eq(n.as_str(), "w:tab") {
                    push_char(&mut out, '\t');
                } else if str_eq(n.as_str(), "w:br") {
                    push_char(&mut out, '\n');
                } else if str_eq(n.as_str(), "w:t") {
                    in_text = true;
                }
            },
            XmlEvent::Empty(n) => {
                if str_eq(n.as_str(), "w:p") {
                    if !out.as_str().is_empty() {
                        push_str(&mut out, "\n\n");
                    }
                } else if str_eq(n.as_str(), "w:tab") {
                    push_char(&mut out, '\t');
                } else if str_eq(n.as_str(), "w:br") {
                    push_char(&mut out, '\n');
                }
            },
            XmlEvent::Text(t) => {
                if in_text {
                    match unescape_text(t.as_str()) {
                        Ok(u) => push_str(&mut out, u.as_str()),
                        Err(e) => {
                            assert(evs[i as int] is Text);
                            return Err(e);
                        },
                    }
                }
            },
            XmlEvent::End(n) => {
                if str_eq(n.as_str(), "w:t") {
                    in_text = false;
                }
            },
            XmlEvent::Other => {},
        }
        i = i + 1;
    }
    assert(evs.subrange(0, events@.len() as int) =~= evs);
    Ok(trim_str(out.as_str()))
}


/// Paragraphs so far, text of the open paragraph, whether a `w:t` element
/// is open, and whether a paragraph is open.
pub struct ParagraphState {
    pub paragraphs: Seq<Seq<char>>,
    pub current: Seq<char>,
    pub in_text: bool,
    pub in_paragraph: bool,
}

/// A paragraph start: closes the open paragraph, if any, and opens one.
pub open spec fn open_paragraph(st: ParagraphState) -> ParagraphState {
    if st.in_paragraph {
        ParagraphState { paragraphs: st.paragraphs.push(trim_end(st.current)), current: Seq::empty(), in_paragraph: true, ..st }
    } else {
        ParagraphState { in_paragraph: true, ..st }
    }
}

/// The paragraph reader's state after the events.
pub open spec fn paragraph_state(events: Seq<XmlEventView>) -> ParagraphState
    decreases events.len(),
{
    if events.len() == 0 {
        ParagraphState { paragraphs: Seq::empty(), current: Seq::empty(), in_text: false, in_paragraph: false }
    } else {
        let st = paragraph_state(events.drop_last());
        match events.last() {
            XmlEventView::Start(n) => if n == "w:p"@ {
                open_paragraph(st)
            } else if n == "w:br"@ {
                ParagraphState { current: st.current.push('\n'), ..st }
            } else if n == "w:tab"@ {
                ParagraphState { current: st.current.push('\t'), ..st }
            } else if n == "w:t"@ {
                ParagraphState { in_text: true, ..st }
            } else {
                st
            },
            XmlEventView::Empty(n) => if n == "w:p"@ {
                open_paragraph(st)
            } else if n == "w:br"@ {
                ParagraphState { current: st.current.push('\n'), ..st }
            } else if n == "w:tab"@ {
                ParagraphState { current: st.current.push('\t'), ..st }
            } else {
                st
            },
            XmlEventView::Text(t) => if st.in_text {
                match xml_unescape(t) {
                    Some(u) => ParagraphState { current: st.current + u, ..st },
                    None => st,
                }
            } else {
                st
            },
            XmlEventView::End(n) => {
                let st2 = if n == "w:t"@ {
                    ParagraphState { in_text: false, ..st }
                } else {
                    st
                };
                if n == "w:p"@ {
                    ParagraphState {
                        paragraphs: st2.paragraphs.push(trim_end(st2.current)),
                        current: Seq::empty(),
                        in_paragraph: false,
                        ..st2
                    }
                } else {
                    st2
                }
            },
            XmlEventView::Other => st,
        }
    }
}

/// Both readers agree on whether a `w:t` element is open.
proof fn lemma_same_text_flag(events: Seq<XmlEventView>)
    ensures
        text_state(events).1 == paragraph_state(events).in_text,
    decreases events.len(),
{
    if events.len() > 0 {
        lemma_same_text_flag(events.drop_last());
    }
}

/// The paragraphs of a DOCX body, each without trailing whitespace; text
/// after the last paragraph end counts as a final paragraph.
pub open spec fn body_paragraphs(events: Seq<XmlEventView>) -> Seq<Seq<char>> {
    let st = paragraph_state(events);
    if st.current.len() > 0 {
        st.paragraphs.push(trim_end(st.current))
    } else {
        st.paragraphs
    }
}

/// The paragraphs of a DOCX body given as events; an error when a text
/// inside a `w:t` element does not unescape.
pub fn paragraphs_from_events(events: &Vec<XmlEvent>) -> (res: Result<Vec<String>, XmlError>)
    ensures
        match res {
            Ok(paragraphs) => texts_unescape(event_views(events@)) && paragraphs@.map_values(|p: String| p@)
                == body_paragraphs(event_views(events@)),
            Err(_) => !texts_unescape(event_views(events@)),
        },
{
    let ghost evs = event_views(events@);
    let mut paragraphs: Vec<String> = Vec::new();
    let mut current = String::new();
    let mut in_text = false;
    let mut in_paragraph = false;
    let mut i: usize = 0;
    while i < events.len()
        invariant
            i <= events.len(),
            evs == event_views(events@),
            ({
                let st = paragraph_state(evs.subrange(0, i as int));
                &&& paragraphs@.map_values(|p: String| p@) == st.paragraphs
                &&& current@ == st.current
                &&& in_text == st.in_text
                &&& in_paragraph == st.in_paragraph
            }),
            forall|j: int|
                0 <= j < i && #[trigger] evs[j] is Text && text_state(evs.subrange(0, j)).1
                    ==> xml_unescape(evs[j]->Text_0) is Some,
        decreases events.len() - i,
    {
        proof {
            assert(evs.subrange(0, i + 1).drop_last() =~= evs.subrange(0, i as int));
            lemma_same_text_flag(evs.subrange(0, i as int));
        }
        let ghost before = paragraphs@.map_values(|p: String| p@);
        match &events[i] {
            XmlEvent::Start(n) | XmlEvent::Empty(n) => {
                let is_start = match &events[i] {
                    XmlEvent::Start(_) => true,
                    _ => false,
                };
                if str_eq(n.as_str(), "w:p") {
                    if in_paragraph {
                        paragraphs.push(crate::text::trim_end_str(current.as_str()));
                        current = String::new();
                        assert(paragraphs@.map_values(|p: String| p@) =~= before.push(trim_end(
                            paragraph_state(evs.subrange(0, i as int)).current,
                        )));
                    }
                    in_paragraph = true;
                } else if str_eq(n.as_str(), "w:br") {
                    push_char(&mut current, '\n');
                } else if str_eq(n.as_str(), "w:tab") {
                    push_char(&mut current, '\t');
                } else if is_start && str_eq(n.as_str(), "w:t") {
                    in_text = true;
                }
            },
            XmlEvent::Text(t) => {
                if in_text {
                    match unescape_text(t.as_str()) {
                        Ok(u) => push_str(&mut current, u.as_str()),
                        Err(e) => {
                            assert(evs[i as int] is Text);
                            return Err(e);
                        },
                    }
                }
            },
            XmlEvent::End(n) => {
                if str_eq(n.as_str(), "w:t") {
                    in_text = false;
                }
                if str_eq(n.as_str(), "w:p") {
                    paragraphs.push(crate::text::trim_end_str(current.as_str()));
                    current = String::new();
                    in_paragraph = false;
                    assert(paragraphs@.map_values(|p: String| p@) =~= before.push(trim_end(
                        paragraph_state(evs.subrange(0, i as int)).current,
                    )));
                }
            },
            XmlEvent::Other => {},
        }
        i = i + 1;
    }
    assert(evs.subrange(0, events@.len() as int) =~= evs);
    if !current.as_str().is_empty() {
        let ghost before = paragraphs@.map_values(|p: String| p@);
        paragraphs.push(crate::text::trim_end_str(current.as_str()));
        assert(paragraphs@.map_values(|p: String| p@) =~= before.push(trim_end(current@)));
    }
    Ok(paragraphs)
}

/// The plain text of a DOCX body given as `word/document.xml`: an error when
/// the XML is malformed or a text inside a `w:t` element does not unescape.
pub fn docx_text_from_xml(xml: &str) -> (res: Result<String, XmlError>)
    ensures
        match res {
            Ok(text) => xml_events(xml@) matches Some(evs) && texts_unescape(evs) && text@ == body_text(evs),
            Err(_) => xml_events(xml@) is None || (xml_events(xml@) matches Some(evs) && !texts_unescape(evs)),
        },
{
    let events = read_xml_events(xml)?;
    text_from_events(&events)
}

/// The paragraphs of a DOCX body given as `word/document.xml`: an error
/// when the XML is malformed or a text inside a `w:t` element does not
/// unescape.
pub fn docx_paragraphs_from_xml(xml: &str) -> (res: Result<Vec<String>, XmlError>)
    ensures
        match res {
            Ok(paragraphs) => xml_events(xml@) matches Some(evs) && texts_unescape(evs) && paragraphs@.map_values(
                |p: String| p@,
            ) == body_paragraphs(evs),
            Err(_) => xml_events(xml@) is None || (xml_events(xml@) matches Some(evs) && !texts_unescape(evs)),
        },
{
    let events = read_xml_events(xml)?;
    paragraphs_from_events(&events)
}

} // verus!
