//! The HTTP decision layer for users: response body shapes, the exact
//! status mapping, and the two handlers' decision logic. Decoding a
//! request from the wire and encoding a reply onto it stay outside
//! this crate; the handlers here work on plain values.

use crate::ids::EntityId;
use crate::time::Timestamp;
use crate::users::entity::{User, UserView};
use crate::users::repository::{find_user, has_id, user_not_found_message, UserRepository};
use crate::users::use_cases::{
    CreateUserUseCase, CreateUserUseCaseError, GetUserUseCase, GetUserUseCaseError,
};
use crate::users::validation::{spec_create_user_params, CreateUserParams, CreateUserRequest};
use crate::UseCase;
use vstd::prelude::*;

verus! {

/// The error body of a failed creation: one `error` string.
#[derive(Debug)]
pub struct CreateUserError {
    pub error: String,
}

/// The error body of a failed fetch: one `error` string.
#[derive(Debug)]
pub struct GetUserError {
    pub error: String,
}

/// The success body of a creation: the persisted entity, field by
/// field.
#[derive(Debug)]
pub struct CreateUserResponse {
    pub id: EntityId,
    pub email: String,
    pub name: String,
    pub created_at: Timestamp,
    pub updated_at: Timestamp,
}

impl View for CreateUserResponse {
    type V = UserView;

    open spec fn view(&self) -> UserView {
        UserView {
            id: self.id,
            email: self.email@,
            name: self.name@,
            created_at: self.created_at,
            updated_at: self.updated_at,
        }
    }
}

impl CreateUserResponse {
    /// Copies the persisted entity into the response body shape.
    pub fn of_entity(e: &User) -> (r: CreateUserResponse)
        ensures
            r@ == e@,
    {
        CreateUserResponse {
            id: e.id(),
            email: e.email().to_owned(),
            name: e.name().to_owned(),
            created_at: e.created_at(),
            updated_at: e.updated_at(),
        }
    }
}

/// The success body of a fetch; the same shape as a creation's.
#[derive(Debug)]
pub struct GetUserResponse {
    pub id: EntityId,
    pub email: String,
    pub name: String,
    pub created_at: Timestamp,
    pub updated_at: Timestamp,
}

impl View for GetUserResponse {
    type V = UserView;

    open spec fn view(&self) -> UserView {
        UserView {
            id: self.id,
            email: self.email@,
            name: self.name@,
            created_at: self.created_at,
            updated_at: self.updated_at,
        }
    }
}

impl GetUserResponse {
    /// Copies the persisted entity into the response body shape.
    pub fn of_entity(e: &User) -> (r: GetUserResponse)
        ensures
            r@ == e@,
    {
        GetUserResponse {
            id: e.id(),
            email: e.email().to_owned(),
            name: e.name().to_owned(),
            created_at: e.created_at(),
            updated_at: e.updated_at(),
        }
    }
}

/// Everything a creation request can come to: created, rejected by
/// validation, or failed in storage.
#[derive(Debug)]
pub enum CreateUserReply {
    Created(CreateUserResponse),
    BadRequest(CreateUserError),
    ServerError(CreateUserError),
}

impl CreateUserReply {
    /// The exact status line of each outcome.
    pub open spec fn status_spec(&self) -> u16 {
        match self {
            CreateUserReply::Created(_) => 201,
            CreateUserReply::BadRequest(_) => 400,
            CreateUserReply::ServerError(_) => 500,
        }
    }

    pub fn status_code(&self) -> (r: u16)
        ensures
            r == self.status_spec(),
    {
        match self {
            CreateUserReply::Created(_) => 201,
            CreateUserReply::BadRequest(_) => 400,
            CreateUserReply::ServerError(_) => 500,
        }
    }
}

/// Everything a fetch request can come to.
#[derive(Debug)]
pub enum GetUserReply {
    Found(GetUserResponse),
    NotFound(GetUserError),
    ServerError(GetUserError),
}

impl GetUserReply {
    /// The exact status line of each outcome.
    pub open spec fn status_spec(&self) -> u16 {
        match self {
            GetUserReply::Found(_) => 200,
            GetUserReply::NotFound(_) => 404,
            GetUserReply::ServerError(_) => 500,
        }
    }

    pub fn status_code(&self) -> (r: u16)
        ensures
            r == self.status_spec(),
    {
        match self {
            GetUserReply::Found(_) => 200,
            GetUserReply::NotFound(_) => 404,
            GetUserReply::ServerError(_) => 500,
        }
    }
}

/// Decides one creation request: the validation stage runs first, in
/// its fixed order, and on its failure the use case is never invoked
/// and the body carries that rule's exact message; otherwise exactly
/// one use-case call decides between the created entity and a storage
/// failure.
pub fn create_user<R: UserRepository>(
    use_case: &mut CreateUserUseCase<R>,
    req: CreateUserRequest,
) -> (r: CreateUserReply)
    requires
        old(use_case).repo().inv(),
    ensures
        final(use_case).repo().inv(),
        (match spec_create_user_params(req@) {
            Err(e) => {
                &&& r matches CreateUserReply::BadRequest(b) && b.error@ == e.message_spec()
                &&& final(use_case).repo().rows() == old(use_case).repo().rows()
            },
            Ok(p) => (match r {
                CreateUserReply::Created(resp) => {
                    &&& final(use_case).repo().rows() == old(use_case).repo().rows().push(resp@)
                    &&& !has_id(old(use_case).repo().rows(), resp@.id)
                    &&& resp@.email == p.email
                    &&& resp@.name == p.name
                    &&& resp@.created_at == resp@.updated_at
                },
                CreateUserReply::BadRequest(_) => false,
                CreateUserReply::ServerError(_) => final(use_case).repo().rows() == old(
                    use_case,
                ).repo().rows(),
            }),
        }),
{
    let data = match CreateUserParams::try_from(req) {
        Ok(data) => data,
        Err(e) => {
            return CreateUserReply::BadRequest(CreateUserError { error: e.message() });
        },
    };
    match use_case.execute(data) {
        Ok(user) => CreateUserReply::Created(CreateUserResponse::of_entity(&user)),
        Err(CreateUserUseCaseError::DatabaseError(msg)) => CreateUserReply::ServerError(
            CreateUserError { error: msg },
        ),
    }
}

/// Decides one fetch request: exactly one use-case call, then the
/// exact status mapping; a miss carries the missing-row report for the
/// requested identifier.
pub fn get_user<R: UserRepository>(use_case: &mut GetUserUseCase<R>, id: EntityId) -> (r:
    GetUserReply)
    requires
        old(use_case).repo().inv(),
    ensures
        *final(use_case) == *old(use_case),
        (match r {
            GetUserReply::Found(resp) => find_user(old(use_case).repo().rows(), id) == Some(
                resp@,
            ),
            GetUserReply::NotFound(b) => find_user(old(use_case).repo().rows(), id) is None
                && b.error@ == user_not_found_message(id),
            GetUserReply::ServerError(_) => true,
        }),
{
    match use_case.execute(id) {
        Ok(user) => GetUserReply::Found(GetUserResponse::of_entity(&user)),
        Err(GetUserUseCaseError::NotFound(msg)) => GetUserReply::NotFound(
            GetUserError { error: msg },
        ),
        Err(GetUserUseCaseError::DatabaseError(msg)) => GetUserReply::ServerError(
            GetUserError { error: msg },
        ),
    }
}

} // verus!
