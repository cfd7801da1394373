//! The event entity: one persisted resource instance, immutable after
//! construction.

use crate::ids::EntityId;
use crate::time::Timestamp;
use vstd::prelude::*;

verus! {

/// The mathematical image of an `Event`: every attribute as a plain
/// value.
pub struct EventView {
    pub id: EntityId,
    pub title: Seq<char>,
    pub description: Seq<char>,
    pub event_date: Timestamp,
    pub venue_name: Seq<char>,
    pub created_at: Timestamp,
    pub updated_at: Timestamp,
}

/// One persisted event. The identifier and both system timestamps are
/// generated server-side at creation; no operation mutates an entity
/// afterwards.
#[derive(Debug)]
pub struct Event {
    id: EntityId,
    title: String,
    description: String,
    event_date: Timestamp,
    venue_name: String,
    created_at: Timestamp,
    updated_at: Timestamp,
}

impl View for Event {
    type V = EventView;

    closed spec fn view(&self) -> EventView {
        EventView {
            id: self.id,
            title: self.title@,
            description: self.description@,
            event_date: self.event_date,
            venue_name: self.venue_name@,
            created_at: self.created_at,
            updated_at: self.updated_at,
        }
    }
}

impl Event {
    /// Assembles an entity from an already-generated identifier and
    /// timestamps together with its business attributes.
    pub fn new(
        id: EntityId,
        title: String,
        description: String,
        event_date: Timestamp,
        venue_name: String,
        created_at: Timestamp,
        updated_at: Timestamp,
    ) -> (r: Event)
        ensures
            r@ == (EventView {
                id,
                title: title@,
                description: description@,
                event_date,
                venue_name: venue_name@,
                created_at,
                updated_at,
            }),
    {
        Event { id, title, description, event_date, venue_name, created_at, updated_at }
    }

    pub fn id(&self) -> (r: EntityId)
        ensures
            r == self@.id,
    {
        self.id
    }

    pub fn title(&self) -> (r: &str)
        ensures
            r@ == self@.title,
    {
        self.title.as_str()
    }

    pub fn description(&self) -> (r: &str)
        ensures
            r@ == self@.description,
    {
        self.description.as_str()
    }

    pub fn event_date(&self) -> (r: Timestamp)
        ensures
            r == self@.event_date,
    {
        self.event_date
    }

    pub fn venue_name(&self) -> (r: &str)
        ensures
            r@ == self@.venue_name,
    {
        self.venue_name.as_str()
    }

    pub fn created_at(&self) -> (r: Timestamp)
        ensures
            r == self@.created_at,
    {
        self.created_at
    }

    pub fn updated_at(&self) -> (r: Timestamp)
        ensures
            r == self@.updated_at,
    {
        self.updated_at
    }
}

impl Clone for Event {
    /// A clone carries exactly the same value.
    fn clone(&self) -> (res: Self)
        ensures
            res == *self,
    {
        Event {
            id: self.id,
            title: self.title.clone(),
            description: self.description.clone(),
            event_date: self.event_date,
            venue_name: self.venue_name.clone(),
            created_at: self.created_at,
            updated_at: self.updated_at,
        }
    }
}

} // verus!
