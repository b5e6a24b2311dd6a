//! Ordered evaluation trace (explanatory, not normative).
use vstd::prelude::*;

use crate::model::identifiers::{RuleReference, TraceEventId};
use crate::model::metadata::Metadata;
use crate::text::IntoText;

verus! {

/// Single step in an evaluation trace.
#[derive(Debug, Clone, PartialEq, Eq)]
pub struct TraceEvent {
    pub id: TraceEventId,
    pub rule_reference: Option<RuleReference>,
    pub message: String,
    pub metadata: Metadata,
}

/// Spec-level contents of a [`TraceEvent`].
pub struct TraceEventView {
    pub id: Seq<char>,
    pub rule_reference: Option<Seq<char>>,
    pub message: Seq<char>,
    pub metadata: Map<Seq<char>, Seq<char>>,
}

/// View of an optional rule reference.
pub open spec fn opt_rule_reference(o: Option<RuleReference>) -> Option<Seq<char>> {
    match o {
        Some(r) => Some(r@),
        None => None,
    }
}

impl View for TraceEvent {
    type V = TraceEventView;

    open spec fn view(&self) -> TraceEventView {
        TraceEventView {
            id: self.id@,
            rule_reference: opt_rule_reference(self.rule_reference),
            message: self.message@,
            metadata: self.metadata@,
        }
    }
}

/// A trace event with no rule reference and no metadata.
pub open spec fn plain_event(id: Seq<char>, message: Seq<char>) -> TraceEventView {
    TraceEventView { id, rule_reference: None, message, metadata: Map::empty() }
}

/// Views of a sequence of trace events.
pub open spec fn events_view(s: Seq<TraceEvent>) -> Seq<TraceEventView> {
    s.map_values(|e: TraceEvent| e@)
}

/// Appending an event appends its view.
pub proof fn lemma_events_view_push(s: Seq<TraceEvent>, e: TraceEvent)
    ensures
        events_view(s.push(e)) == events_view(s).push(e@),
{
    assert(events_view(s.push(e)) =~= events_view(s).push(e@));
}

impl TraceEvent {
    pub fn new<T: IntoText, U: IntoText>(id: T, message: U) -> (r: Self)
        ensures
            r@ == plain_event(id.text_view(), message.text_view()),
    {
        TraceEvent {
            id: TraceEventId::new(id),
            rule_reference: None,
            message: message.into_text(),
            metadata: Metadata::new(),
        }
    }

    pub fn with_rule_reference<T: IntoText>(self, rule_reference: T) -> (r: Self)
        ensures
            r@ == (TraceEventView { rule_reference: Some(rule_reference.text_view()), ..self@ }),
    {
        TraceEvent { rule_reference: Some(RuleReference::new(rule_reference)), ..self }
    }

    pub fn with_metadata(self, metadata: Metadata) -> (r: Self)
        ensures
            r@ == (TraceEventView { metadata: metadata@, ..self@ }),
    {
        TraceEvent { metadata, ..self }
    }

    /// A copy with the same contents.
    pub fn duplicate(&self) -> (r: Self)
        ensures
            r@ == self@,
    {
        TraceEvent {
            id: self.id.duplicate(),
            rule_reference: match &self.rule_reference {
                Some(reference) => Some(reference.duplicate()),
                None => None,
            },
            message: self.message.clone(),
            metadata: self.metadata.clone(),
        }
    }
}

/// Ordered trace of how evaluation proceeded.
#[derive(Debug, Clone, PartialEq, Eq)]
pub struct Trace {
    events: Vec<TraceEvent>,
}

impl View for Trace {
    type V = Seq<TraceEventView>;

    closed spec fn view(&self) -> Seq<TraceEventView> {
        events_view(self.events@)
    }
}

impl Default for Trace {
    fn default() -> (r: Self)
        ensures
            r@ == Seq::<TraceEventView>::empty(),
    {
        let r = Trace { events: Vec::new() };
        assert(r@ =~= Seq::<TraceEventView>::empty());
        r
    }
}

impl Trace {
    pub fn builder() -> (r: TraceBuilder)
        ensures
            r@ == Seq::<TraceEventView>::empty(),
    {
        TraceBuilder::new()
    }

    /// The events in evaluation order.
    pub fn events(&self) -> (r: &[TraceEvent])
        ensures
            events_view(r@) == self@,
    {
        self.events.as_slice()
    }

    pub fn is_empty(&self) -> (r: bool)
        ensures
            r == (self@.len() == 0),
    {
        self.events.len() == 0
    }
}

/// Appends trace events in evaluation order.
#[derive(Debug)]
pub struct TraceBuilder {
    events: Vec<TraceEvent>,
}

impl View for TraceBuilder {
    type V = Seq<TraceEventView>;

    closed spec fn view(&self) -> Seq<TraceEventView> {
        events_view(self.events@)
    }
}

impl Default for TraceBuilder {
    fn default() -> (r: Self)
        ensures
            r@ == Seq::<TraceEventView>::empty(),
    {
        TraceBuilder::new()
    }
}

impl TraceBuilder {
    pub fn new() -> (r: Self)
        ensures
            r@ == Seq::<TraceEventView>::empty(),
    {
        let r = TraceBuilder { events: Vec::new() };
        assert(r@ =~= Seq::<TraceEventView>::empty());
        r
    }

    /// Appends `event` after the events already added.
    pub fn event(self, event: TraceEvent) -> (r: Self)
        ensures
            r@ == self@.push(event@),
    {
        let mut events = self.events;
        proof {
            lemma_events_view_push(events@, event);
        }
        events.push(event);
        TraceBuilder { events }
    }

    /// Appends a plain event with the given id and message.
    pub fn message<T: IntoText, U: IntoText>(self, id: T, message: U) -> (r: Self)
        ensures
            r@ == self@.push(plain_event(id.text_view(), message.text_view())),
    {
        self.event(TraceEvent::new(id, message))
    }

    pub fn build(self) -> (r: Trace)
        ensures
            r@ == self@,
    {
        Trace { events: self.events }
    }
}

} // verus!
