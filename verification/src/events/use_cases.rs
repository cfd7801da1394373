//! The event use cases: one orchestrator per operation, each holding
//! its repository and executing exactly one business operation while
//! translating the storage failure vocabulary into its own.

use crate::errors::DomainError;
use crate::events::entity::Event;
use crate::events::repository::{
    event_not_found_message, find_event, has_id, EventRepository,
};
use crate::events::validation::{valid_event_params, CreateEventParams};
use crate::ids::EntityId;
use crate::UseCase;
use vstd::prelude::*;

verus! {

/// The failures the create-event use case reports upward.
#[derive(Debug)]
pub enum CreateEventUseCaseError {
    DatabaseError(String),
}

/// The failures the get-event use case reports upward. `NotFound`
/// carries the repository's exact missing-row report.
#[derive(Debug)]
pub enum GetEventUseCaseError {
    NotFound(String),
    DatabaseError(String),
}

/// Translates a storage failure for the create path. Only
/// `DatabaseError` is expected here; any other kind reaching this
/// point is an orchestration fault and is flattened to a generic
/// `DatabaseError` rather than propagated raw.
pub fn map_create_event_error(e: DomainError) -> (r: CreateEventUseCaseError)
    ensures
        (match e {
            DomainError::DatabaseError(m) => r matches CreateEventUseCaseError::DatabaseError(m2)
                && m2@ == m@,
            _ => r matches CreateEventUseCaseError::DatabaseError(m2) && m2@
                == "Unexpected error"@,
        }),
{
    match e {
        DomainError::DatabaseError(m) => CreateEventUseCaseError::DatabaseError(m),
        _ => CreateEventUseCaseError::DatabaseError(String::from_str("Unexpected error")),
    }
}

/// Translates a storage failure for the get path; the unexpected
/// validation kind is flattened defensively.
pub fn map_get_event_error(e: DomainError) -> (r: GetEventUseCaseError)
    ensures
        (match e {
            DomainError::NotFound(m) => r matches GetEventUseCaseError::NotFound(m2) && m2@ == m@,
            DomainError::DatabaseError(m) => r matches GetEventUseCaseError::DatabaseError(m2)
                && m2@ == m@,
            DomainError::ValidationError(_) => r matches GetEventUseCaseError::DatabaseError(m2)
                && m2@ == "Unexpected error"@,
        }),
{
    match e {
        DomainError::NotFound(m) => GetEventUseCaseError::NotFound(m),
        DomainError::DatabaseError(m) => GetEventUseCaseError::DatabaseError(m),
        DomainError::ValidationError(_) => GetEventUseCaseError::DatabaseError(
            String::from_str("Unexpected error"),
        ),
    }
}

/// Creates one event through the repository it holds.
pub struct CreateEventUseCase<R: EventRepository> {
    repository: R,
}

impl<R: EventRepository> CreateEventUseCase<R> {
    /// The repository this use case orchestrates.
    pub closed spec fn repo(&self) -> R {
        self.repository
    }

    pub fn new(repository: R) -> (r: Self)
        ensures
            r.repo() == repository,
    {
        CreateEventUseCase { repository }
    }

    /// Hands the repository back, e.g. to wire it into another use
    /// case.
    pub fn into_repository(self) -> (r: R)
        ensures
            r == self.repo(),
    {
        self.repository
    }
}

impl<R: EventRepository> UseCase<
    CreateEventParams,
    Result<Event, CreateEventUseCaseError>,
> for CreateEventUseCase<R> {
    /// The repository invariant holds and the parameters have passed
    /// validation.
    open spec fn pre(&self, input: CreateEventParams) -> bool {
        self.repo().inv() && valid_event_params(input@)
    }

    /// Exactly one row is appended on success, under a fresh
    /// identifier, carrying the validated fields and equal system
    /// timestamps; on failure the rows are unchanged. Validation
    /// failures never reach this layer.
    open spec fn post(
        pre_state: Self,
        post_state: Self,
        input: CreateEventParams,
        output: Result<Event, CreateEventUseCaseError>,
    ) -> bool {
        &&& post_state.repo().inv()
        &&& (match output {
            Ok(e) => {
                &&& post_state.repo().rows() == pre_state.repo().rows().push(e@)
                &&& !has_id(pre_state.repo().rows(), e@.id)
                &&& e@.title == input@.title
                &&& e@.description == input@.description
                &&& e@.event_date == input@.event_date
                &&& e@.venue_name == input@.venue_name
                &&& e@.created_at == e@.updated_at
            },
            Err(CreateEventUseCaseError::DatabaseError(_)) => post_state.repo().rows()
                == pre_state.repo().rows(),
        })
    }

    /// Delegates the one creation to the repository and maps its
    /// failure vocabulary.
    fn execute(&mut self, input: CreateEventParams) -> Result<Event, CreateEventUseCaseError> {
        match self.repository.create(input) {
            Ok(e) => Ok(e),
            Err(err) => Err(map_create_event_error(err)),
        }
    }
}

/// Fetches one event by identifier through the repository it holds.
pub struct GetEventUseCase<R: EventRepository> {
    repository: R,
}

impl<R: EventRepository> GetEventUseCase<R> {
    /// The repository this use case orchestrates.
    pub closed spec fn repo(&self) -> R {
        self.repository
    }

    pub fn new(repository: R) -> (r: Self)
        ensures
            r.repo() == repository,
    {
        GetEventUseCase { repository }
    }

    /// Hands the repository back.
    pub fn into_repository(self) -> (r: R)
        ensures
            r == self.repo(),
    {
        self.repository
    }
}

impl<R: EventRepository> UseCase<
    EntityId,
    Result<Event, GetEventUseCaseError>,
> for GetEventUseCase<R> {
    /// The repository invariant holds.
    open spec fn pre(&self, input: EntityId) -> bool {
        self.repo().inv()
    }

    /// A lookup mutates nothing; a hit is exactly the stored row, a
    /// miss carries the exact missing-row report, and only a storage
    /// failure may hide an existing row.
    open spec fn post(
        pre_state: Self,
        post_state: Self,
        input: EntityId,
        output: Result<Event, GetEventUseCaseError>,
    ) -> bool {
        &&& post_state == pre_state
        &&& (match output {
            Ok(e) => find_event(pre_state.repo().rows(), input) == Some(e@),
            Err(GetEventUseCaseError::NotFound(m)) => find_event(pre_state.repo().rows(), input)
                is None && m@ == event_not_found_message(input),
            Err(GetEventUseCaseError::DatabaseError(_)) => true,
        })
    }

    /// Delegates the one lookup to the repository and maps its failure
    /// vocabulary.
    fn execute(&mut self, input: EntityId) -> Result<Event, GetEventUseCaseError> {
        match self.repository.find_by_id(input) {
            Ok(e) => Ok(e),
            Err(err) => Err(map_get_event_error(err)),
        }
    }
}

} // verus!
