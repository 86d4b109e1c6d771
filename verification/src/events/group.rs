//! Group: an ordered collection of events.

use vstd::prelude::*;
use crate::events::event_enum::EventEnum;
use crate::text::opt_view;

verus! {

/// A group of events.
#[derive(Debug, Clone)]
pub struct Group {
    pub events: Vec<EventEnum>,
    pub group_id: String,
    /// Group type or category.
    pub group_type: Option<String>,
}

impl Group {
    /// An empty group with the given id and no type.
    pub fn new(group_id: &str) -> (r: Self)
        ensures
            r.events@.len() == 0,
            r.group_id@ == group_id@,
            r.group_type is None,
    {
        Group { events: Vec::new(), group_id: String::from_str(group_id), group_type: None }
    }

    /// An empty group with the given id and type.
    pub fn with_type(group_id: &str, group_type: &str) -> (r: Self)
        ensures
            r.events@.len() == 0,
            r.group_id@ == group_id@,
            opt_view(r.group_type) == Some(group_type@),
    {
        Group {
            events: Vec::new(),
            group_id: String::from_str(group_id),
            group_type: Some(String::from_str(group_type)),
        }
    }

    /// Append an event.
    pub fn with_event(self, event: EventEnum) -> (r: Self)
        ensures
            r.events@ == self.events@.push(event),
            r.group_id == self.group_id,
            r.group_type == self.group_type,
    {
        let mut g = self;
        g.events.push(event);
        g
    }

    /// Append several events, in order.
    pub fn with_events(self, events: Vec<EventEnum>) -> (r: Self)
        ensures
            r.events@ == self.events@ + events@,
            r.group_id == self.group_id,
            r.group_type == self.group_type,
    {
        let mut g = self;
        let mut more = events;
        g.events.append(&mut more);
        g
    }

    /// Set the group type.
    pub fn set_group_type(self, group_type: &str) -> (r: Self)
        ensures
            r.events == self.events,
            r.group_id == self.group_id,
            opt_view(r.group_type) == Some(group_type@),
    {
        let mut g = self;
        g.group_type = Some(String::from_str(group_type));
        g
    }
}

impl Default for Group {
    fn default() -> (r: Self)
        ensures
            r.events@.len() == 0,
            r.group_id@ == "default"@,
            r.group_type is None,
    {
        Self::new("default")
    }
}

} // verus!
