//! The HTTP decision layer for events: response body shapes, the exact
//! status mapping, and the two handlers' decision logic. Decoding a
//! request from the wire and encoding a reply onto it stay outside
//! this crate; the handlers here work on plain values.

use crate::events::entity::{Event, EventView};
use crate::events::repository::{event_not_found_message, find_event, has_id, EventRepository};
use crate::events::use_cases::{
    CreateEventUseCase, CreateEventUseCaseError, GetEventUseCase, GetEventUseCaseError,
};
use crate::events::validation::{spec_create_event_params, CreateEventParams, CreateEventRequest};
use crate::ids::EntityId;
use crate::time::Timestamp;
use crate::UseCase;
use vstd::prelude::*;

verus! {

/// The error body of a failed creation: one `error` string.
#[derive(Debug)]
pub struct CreateEventError {
    pub error: String,
}

/// The error body of a failed fetch: one `error` string.
#[derive(Debug)]
pub struct GetEventError {
    pub error: String,
}

/// The success body of a creation: the persisted entity, field by
/// field.
#[derive(Debug)]
pub struct CreateEventResponse {
    pub id: EntityId,
    pub title: String,
    pub description: String,
    pub event_date: Timestamp,
    pub venue_name: String,
    pub created_at: Timestamp,
    pub updated_at: Timestamp,
}

impl View for CreateEventResponse {
    type V = EventView;

    open spec fn view(&self) -> EventView {
        EventView {
            id: self.id,
            title: self.title@,
            description: self.description@,
            event_date: self.event_date,
            venue_name: self.venue_name@,
            created_at: self.created_at,
            updated_at: self.updated_at,
        }
    }
}

impl CreateEventResponse {
    /// Copies the persisted entity into the response body shape.
    pub fn of_entity(e: &Event) -> (r: CreateEventResponse)
        ensures
            r@ == e@,
    {
        CreateEventResponse {
            id: e.id(),
            title: e.title().to_owned(),
            description: e.description().to_owned(),
            event_date: e.event_date(),
            venue_name: e.venue_name().to_owned(),
            created_at: e.created_at(),
            updated_at: e.updated_at(),
        }
    }
}

/// The success body of a fetch; the same shape as a creation's.
#[derive(Debug)]
pub struct GetEventResponse {
    pub id: EntityId,
    pub title: String,
    pub description: String,
    pub event_date: Timestamp,
    pub venue_name: String,
    pub created_at: Timestamp,
    pub updated_at: Timestamp,
}

impl View for GetEventResponse {
    type V = EventView;

    open spec fn view(&self) -> EventView {
        EventView {
            id: self.id,
            title: self.title@,
            description: self.description@,
            event_date: self.event_date,
            venue_name: self.venue_name@,
            created_at: self.created_at,
            updated_at: self.updated_at,
        }
    }
}

impl GetEventResponse {
    /// Copies the persisted entity into the response body shape.
    pub fn of_entity(e: &Event) -> (r: GetEventResponse)
        ensures
            r@ == e@,
    {
        GetEventResponse {
            id: e.id(),
            title: e.title().to_owned(),
            description: e.description().to_owned(),
            event_date: e.event_date(),
            venue_name: e.venue_name().to_owned(),
            created_at: e.created_at(),
            updated_at: e.updated_at(),
        }
    }
}

/// Everything a creation request can come to: created, rejected by
/// validation, or failed in storage.
#[derive(Debug)]
pub enum CreateEventReply {
    Created(CreateEventResponse),
    BadRequest(CreateEventError),
    ServerError(CreateEventError),
}

impl CreateEventReply {
    /// The exact status line of each outcome.
    pub open spec fn status_spec(&self) -> u16 {
        match self {
            CreateEventReply::Created(_) => 201,
            CreateEventReply::BadRequest(_) => 400,
            CreateEventReply::ServerError(_) => 500,
        }
    }

    pub fn status_code(&self) -> (r: u16)
        ensures
            r == self.status_spec(),
    {
        match self {
            CreateEventReply::Created(_) => 201,
            CreateEventReply::BadRequest(_) => 400,
            CreateEventReply::ServerError(_) => 500,
        }
    }
}

/// Everything a fetch request can come to.
#[derive(Debug)]
pub enum GetEventReply {
    Found(GetEventResponse),
    NotFound(GetEventError),
    ServerError(GetEventError),
}

impl GetEventReply {
    /// The exact status line of each outcome.
    pub open spec fn status_spec(&self) -> u16 {
        match self {
            GetEventReply::Found(_) => 200,
            GetEventReply::NotFound(_) => 404,
            GetEventReply::ServerError(_) => 500,
        }
    }

    pub fn status_code(&self) -> (r: u16)
        ensures
            r == self.status_spec(),
    {
        match self {
            GetEventReply::Found(_) => 200,
            GetEventReply::NotFound(_) => 404,
            GetEventReply::ServerError(_) => 500,
        }
    }
}

/// Decides one creation request: the validation stage runs first, in
/// its fixed order, and on its failure the use case is never invoked
/// and the body carries that rule's exact message; otherwise exactly
/// one use-case call decides between the created entity and a storage
/// failure.
pub fn create_event<R: EventRepository>(
    use_case: &mut CreateEventUseCase<R>,
    req: CreateEventRequest,
    now: Timestamp,
) -> (r: CreateEventReply)
    requires
        old(use_case).repo().inv(),
    ensures
        final(use_case).repo().inv(),
        (match spec_create_event_params(req@, now) {
            Err(e) => {
                &&& r matches CreateEventReply::BadRequest(b) && b.error@ == e.message_spec()
                &&& final(use_case).repo().rows() == old(use_case).repo().rows()
            },
            Ok(p) => (match r {
                CreateEventReply::Created(resp) => {
                    &&& final(use_case).repo().rows() == old(use_case).repo().rows().push(resp@)
                    &&& !has_id(old(use_case).repo().rows(), resp@.id)
                    &&& resp@.title == p.title
                    &&& resp@.description == p.description
                    &&& resp@.event_date == p.event_date
                    &&& resp@.venue_name == p.venue_name
                    &&& resp@.created_at == resp@.updated_at
                },
                CreateEventReply::BadRequest(_) => false,
                CreateEventReply::ServerError(_) => final(use_case).repo().rows() == old(
                    use_case,
                ).repo().rows(),
            }),
        }),
{
    let data = match CreateEventParams::try_from(req, now) {
        Ok(data) => data,
        Err(e) => {
            return CreateEventReply::BadRequest(CreateEventError { error: e.message() });
        },
    };
    match use_case.execute(data) {
        Ok(event) => CreateEventReply::Created(CreateEventResponse::of_entity(&event)),
        Err(CreateEventUseCaseError::DatabaseError(msg)) => CreateEventReply::ServerError(
            CreateEventError { error: msg },
        ),
    }
}

/// Decides one fetch request: exactly one use-case call, then the
/// exact status mapping; a miss carries the missing-row report for the
/// requested identifier.
pub fn get_event<R: EventRepository>(use_case: &mut GetEventUseCase<R>, id: EntityId) -> (r:
    GetEventReply)
    requires
        old(use_case).repo().inv(),
    ensures
        *final(use_case) == *old(use_case),
        (match r {
            GetEventReply::Found(resp) => find_event(old(use_case).repo().rows(), id) == Some(
                resp@,
            ),
            GetEventReply::NotFound(b) => find_event(old(use_case).repo().rows(), id) is None
                && b.error@ == event_not_found_message(id),
            GetEventReply::ServerError(_) => true,
        }),
{
    match use_case.execute(id) {
        Ok(event) => GetEventReply::Found(GetEventResponse::of_entity(&event)),
        Err(GetEventUseCaseError::NotFound(msg)) => GetEventReply::NotFound(
            GetEventError { error: msg },
        ),
        Err(GetEventUseCaseError::DatabaseError(msg)) => GetEventReply::ServerError(
            GetEventError { error: msg },
        ),
    }
}

} // verus!
