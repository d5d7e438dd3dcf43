//! The headings of a markdown document.
//!
//! `pulldown_cmark` turns the document into a stream of events. Of those
//! only three kinds matter here: the start of a heading, a run of text, and
//! the end of a heading. The fold over them is this module's own.

use vstd::prelude::*;
use vstd::string::StringExecFns;

verus! {

/// One parser event, reduced to what the search for headings reads.
#[derive(Debug, PartialEq, Eq)]
pub enum HeadingEvent {
    /// A heading of the given level, 1 to 6, begins.
    Start(u8),
    /// A run of plain text.
    Text(String),
    /// The heading that was begun last ends.
    End,
    /// Any other event.
    Other,
}

/// An event by the plain values it carries.
pub enum HeadingEventView {
    Start(u8),
    Text(Seq<char>),
    End,
    Other,
}

impl DeepView for HeadingEvent {
    type V = HeadingEventView;

    open spec fn deep_view(&self) -> HeadingEventView {
        match self {
            HeadingEvent::Start(level) => HeadingEventView::Start(*level),
            HeadingEvent::Text(text) => HeadingEventView::Text(text@),
            HeadingEvent::End => HeadingEventView::End,
            HeadingEvent::Other => HeadingEventView::Other,
        }
    }
}

/// The events that `pulldown_cmark` yields for `source` with no extension
/// switched on, each reduced to a [`HeadingEventView`].
pub uninterp spec fn parsed_events(source: Seq<char>) -> Seq<HeadingEventView>;

/// `Parser::new` of `pulldown_cmark`, run to its end: the events of
/// `markdown` in the parser's order, each converted to the variant that
/// stands for it. The sequence depends on the source alone, and the contract
/// gives it the name [`parsed_events`].
#[verifier::external_body]
fn heading_events(markdown: &str) -> (events: Vec<HeadingEvent>)
    ensures
        events.deep_view() == parsed_events(markdown@),
{
    pulldown_cmark::Parser::new(markdown).map(
        |event|
            match event {
                pulldown_cmark::Event::Start(pulldown_cmark::Tag::Heading(level, _, _)) =>
                    HeadingEvent::Start(level as u8),
                pulldown_cmark::Event::End(pulldown_cmark::Tag::Heading(_, _, _)) => HeadingEvent::End,
                pulldown_cmark::Event::Text(text) => HeadingEvent::Text(text.to_string()),
                _ => HeadingEvent::Other,
            },
    ).collect()
}

/// Where the search stands after some events: the heading being read, if
/// any, with the text gathered so far, and the headings already complete.
pub struct Scan {
    pub open: Option<(u8, Seq<char>)>,
    pub done: Seq<(u8, Seq<char>)>,
}

/// The search before any event.
pub open spec fn scan_start() -> Scan {
    Scan { open: None, done: Seq::empty() }
}

/// The search after one more event. A start opens a heading with empty
/// text, dropping one that was still open; text is appended to the open
/// heading and ignored outside one; an end completes the open heading.
pub open spec fn scan_step(scan: Scan, event: HeadingEventView) -> Scan {
    match event {
        HeadingEventView::Start(level) => Scan { open: Some((level, Seq::empty())), ..scan },
        HeadingEventView::Text(text) => match scan.open {
            Some((level, content)) => Scan { open: Some((level, content + text)), ..scan },
            None => scan,
        },
        HeadingEventView::End => match scan.open {
            Some(heading) => Scan { open: None, done: scan.done.push(heading) },
            None => scan,
        },
        HeadingEventView::Other => scan,
    }
}

/// The search after all of `events`, first to last.
pub open spec fn scan_all(events: Seq<HeadingEventView>) -> Scan
    decreases events.len(),
{
    if events.len() == 0 {
        scan_start()
    } else {
        scan_step(scan_all(events.drop_last()), events.last())
    }
}

/// The headings among `events`: level and text of each heading that has
/// both its start and its end, in document order.
pub open spec fn headings_of(events: Seq<HeadingEventView>) -> Seq<(u8, Seq<char>)> {
    scan_all(events).done
}

/// Folds a stream of events into the list of headings, each with its level
/// and the text between its start and its end.
pub fn collect_headings(events: &Vec<HeadingEvent>) -> (headings: Vec<(u8, String)>)
    ensures
        headings.deep_view() == headings_of(events.deep_view()),
{
    let mut headings: Vec<(u8, String)> = Vec::new();
    let mut current: Option<(u8, String)> = None;
    let mut i: usize = 0;
    proof {
        assert(events.deep_view().take(0) =~= Seq::<HeadingEventView>::empty());
        assert(headings.deep_view() =~= Seq::<(u8, Seq<char>)>::empty());
    }
    while i < events.len()
        invariant
            i <= events@.len(),
            (Scan { open: current.deep_view(), done: headings.deep_view() }) == scan_all(
                events.deep_view().take(i as int),
            ),
        decreases events@.len() - i,
    {
        proof {
            let all = events.deep_view();
            assert(all.take(i + 1).drop_last() =~= all.take(i as int));
            assert(all.take(i + 1).last() == events@[i as int].deep_view());
        }
        let ghost done = headings.deep_view();
        match &events[i] {
            HeadingEvent::Start(level) => {
                current = Some((*level, String::new()));
            },
            HeadingEvent::Text(text) => {
                current =
                match current {
                    Some((level, content)) => Some((level, content.concat(text.as_str()))),
                    None => None,
                };
            },
            HeadingEvent::End => {
                match current {
                    Some(heading) => {
                        headings.push(heading);
                        proof {
                            assert(headings.deep_view() =~= done.push(heading.deep_view()));
                        }
                    },
                    None => {},
                }
                current = None;
            },
            HeadingEvent::Other => {},
        }
        i += 1;
    }
    proof {
        assert(events.deep_view().take(i as int) =~= events.deep_view());
    }
    headings
}

/// The headings of `markdown`, each with its level and its plain text, in
/// document order.
pub fn extract_headings(markdown: &str) -> (headings: Vec<(u8, String)>)
    ensures
        headings.deep_view() == headings_of(parsed_events(markdown@)),
{
    let events = heading_events(markdown);
    collect_headings(&events)
}

} // verus!
