//! The user use cases: one orchestrator per operation, each holding
//! its repository and executing exactly one business operation while
//! translating the storage failure vocabulary into its own.

use crate::errors::DomainError;
use crate::ids::EntityId;
use crate::users::entity::User;
use crate::users::repository::{
    find_user, has_id, user_not_found_message, UserRepository,
};
use crate::users::validation::{valid_user_params, CreateUserParams};
use crate::UseCase;
use vstd::prelude::*;

verus! {

/// The failures the create-user use case reports upward.
#[derive(Debug)]
pub enum CreateUserUseCaseError {
    DatabaseError(String),
}

/// The failures the get-user use case reports upward. `NotFound`
/// carries the repository's exact missing-row report.
#[derive(Debug)]
pub enum GetUserUseCaseError {
    NotFound(String),
    DatabaseError(String),
}

/// Translates a storage failure for the create path. Only
/// `DatabaseError` is expected here; any other kind reaching this
/// point is an orchestration fault and is flattened to a generic
/// `DatabaseError` rather than propagated raw.
pub fn map_create_user_error(e: DomainError) -> (r: CreateUserUseCaseError)
    ensures
        (match e {
            DomainError::DatabaseError(m) => r matches CreateUserUseCaseError::DatabaseError(m2)
                && m2@ == m@,
            _ => r matches CreateUserUseCaseError::DatabaseError(m2) && m2@
                == "Unexpected error"@,
        }),
{
    match e {
        DomainError::DatabaseError(m) => CreateUserUseCaseError::DatabaseError(m),
        _ => CreateUserUseCaseError::DatabaseError(String::from_str("Unexpected error")),
    }
}

/// Translates a storage failure for the get path; the unexpected
/// validation kind is flattened defensively.
pub fn map_get_user_error(e: DomainError) -> (r: GetUserUseCaseError)
    ensures
        (match e {
            DomainError::NotFound(m) => r matches GetUserUseCaseError::NotFound(m2) && m2@ == m@,
            DomainError::DatabaseError(m) => r matches GetUserUseCaseError::DatabaseError(m2)
                && m2@ == m@,
            DomainError::ValidationError(_) => r matches GetUserUseCaseError::DatabaseError(m2)
                && m2@ == "Unexpected error"@,
        }),
{
    match e {
        DomainError::NotFound(m) => GetUserUseCaseError::NotFound(m),
        DomainError::DatabaseError(m) => GetUserUseCaseError::DatabaseError(m),
        DomainError::ValidationError(_) => GetUserUseCaseError::DatabaseError(
            String::from_str("Unexpected error"),
        ),
    }
}

/// Creates one user through the repository it holds.
pub struct CreateUserUseCase<R: UserRepository> {
    repository: R,
}

impl<R: UserRepository> CreateUserUseCase<R> {
    /// The repository this use case orchestrates.
    pub closed spec fn repo(&self) -> R {
        self.repository
    }

    pub fn new(repository: R) -> (r: Self)
        ensures
            r.repo() == repository,
    {
        CreateUserUseCase { repository }
    }

    /// Hands the repository back, e.g. to wire it into another use
    /// case.
    pub fn into_repository(self) -> (r: R)
        ensures
            r == self.repo(),
    {
        self.repository
    }
}

impl<R: UserRepository> UseCase<
    CreateUserParams,
    Result<User, CreateUserUseCaseError>,
> for CreateUserUseCase<R> {
    /// The repository invariant holds and the parameters have passed
    /// validation.
    open spec fn pre(&self, input: CreateUserParams) -> bool {
        self.repo().inv() && valid_user_params(input@)
    }

    /// Exactly one row is appended on success, under a fresh
    /// identifier, carrying the validated fields and equal system
    /// timestamps; on failure the rows are unchanged. Validation
    /// failures never reach this layer.
    open spec fn post(
        pre_state: Self,
        post_state: Self,
        input: CreateUserParams,
        output: Result<User, CreateUserUseCaseError>,
    ) -> bool {
        &&& post_state.repo().inv()
        &&& (match output {
            Ok(e) => {
                &&& post_state.repo().rows() == pre_state.repo().rows().push(e@)
                &&& !has_id(pre_state.repo().rows(), e@.id)
                &&& e@.email == input@.email
                &&& e@.name == input@.name
                &&& e@.created_at == e@.updated_at
            },
            Err(CreateUserUseCaseError::DatabaseError(_)) => post_state.repo().rows()
                == pre_state.repo().rows(),
        })
    }

    /// Delegates the one creation to the repository and maps its
    /// failure vocabulary.
    fn execute(&mut self, input: CreateUserParams) -> Result<User, CreateUserUseCaseError> {
        match self.repository.create(input) {
            Ok(e) => Ok(e),
            Err(err) => Err(map_create_user_error(err)),
        }
    }
}

/// Fetches one user by identifier through the repository it holds.
pub struct GetUserUseCase<R: UserRepository> {
    repository: R,
}

impl<R: UserRepository> GetUserUseCase<R> {
    /// The repository this use case orchestrates.
    pub closed spec fn repo(&self) -> R {
        self.repository
    }

    pub fn new(repository: R) -> (r: Self)
        ensures
            r.repo() == repository,
    {
        GetUserUseCase { repository }
    }

    /// Hands the repository back.
    pub fn into_repository(self) -> (r: R)
        ensures
            r == self.repo(),
    {
        self.repository
    }
}

impl<R: UserRepository> UseCase<
    EntityId,
    Result<User, GetUserUseCaseError>,
> for GetUserUseCase<R> {
    /// The repository invariant holds.
    open spec fn pre(&self, input: EntityId) -> bool {
        self.repo().inv()
    }

    /// A lookup mutates nothing; a hit is exactly the stored row, a
    /// miss carries the exact missing-row report, and only a storage
    /// failure may hide an existing row.
    open spec fn post(
        pre_state: Self,
        post_state: Self,
        input: EntityId,
        output: Result<User, GetUserUseCaseError>,
    ) -> bool {
        &&& post_state == pre_state
        &&& (match output {
            Ok(e) => find_user(pre_state.repo().rows(), input) == Some(e@),
            Err(GetUserUseCaseError::NotFound(m)) => find_user(pre_state.repo().rows(), input)
                is None && m@ == user_not_found_message(input),
            Err(GetUserUseCaseError::DatabaseError(_)) => true,
        })
    }

    /// Delegates the one lookup to the repository and maps its failure
    /// vocabulary.
    fn execute(&mut self, input: EntityId) -> Result<User, GetUserUseCaseError> {
        match self.repository.find_by_id(input) {
            Ok(e) => Ok(e),
            Err(err) => Err(map_get_user_error(err)),
        }
    }
}

} // verus!
