//! The validation stage for user creation: an untrusted inbound
//! payload either becomes a trusted `CreateUserParams` value or is
//! rejected with the first violated rule.
//!
//! The rules run in a fixed order and stop at the first failure, so
//! each invalid input has exactly one observable error message.

use crate::text::{all_space, contains_char, lemma_trim_all_space, lemma_trim_idempotent, trim, trim_spec};
use vstd::prelude::*;

verus! {

/// The smallest accepted length, in characters, of an email address.
pub const EMAIL_MIN: usize = 3;

/// The largest accepted length, in characters, of an email address.
pub const EMAIL_MAX: usize = 254;

/// The largest accepted length, in characters, of a trimmed name.
pub const NAME_MAX: usize = 255;

/// The untrusted inbound payload of a user-creation request, already
/// decoded from the wire but not yet validated.
#[derive(Debug)]
pub struct CreateUserRequest {
    pub email: String,
    pub name: String,
}

/// The mathematical image of a creation request.
pub struct CreateUserRequestView {
    pub email: Seq<char>,
    pub name: Seq<char>,
}

impl View for CreateUserRequest {
    type V = CreateUserRequestView;

    open spec fn view(&self) -> CreateUserRequestView {
        CreateUserRequestView { email: self.email@, name: self.name@ }
    }
}

/// The first rule an invalid user-creation request violates.
#[derive(Clone, Copy, PartialEq, Eq, Structural, Debug)]
pub enum CreateUserRequestError {
    EmailMissingAtSymbol,
    EmailTooShort,
    EmailTooLong,
    NameEmpty,
    NameTooLong,
}

impl CreateUserRequestError {
    /// The message a rejected request reports.
    pub open spec fn message_spec(&self) -> Seq<char> {
        match self {
            CreateUserRequestError::EmailMissingAtSymbol => "Email must contain an @ symbol"@,
            CreateUserRequestError::EmailTooShort => "Email is too short (minimum 3 characters)"@,
            CreateUserRequestError::EmailTooLong => "Email is too long (maximum 254 characters)"@,
            CreateUserRequestError::NameEmpty => "Name cannot be empty"@,
            CreateUserRequestError::NameTooLong => "Name is too long (maximum 255 characters)"@,
        }
    }

    /// Renders the message carried to the response body.
    pub fn message(&self) -> (r: String)
        ensures
            r@ == self.message_spec(),
    {
        match self {
            CreateUserRequestError::EmailMissingAtSymbol => String::from_str(
                "Email must contain an @ symbol",
            ),
            CreateUserRequestError::EmailTooShort => String::from_str(
                "Email is too short (minimum 3 characters)",
            ),
            CreateUserRequestError::EmailTooLong => String::from_str(
                "Email is too long (maximum 254 characters)",
            ),
            CreateUserRequestError::NameEmpty => String::from_str("Name cannot be empty"),
            CreateUserRequestError::NameTooLong => String::from_str(
                "Name is too long (maximum 255 characters)",
            ),
        }
    }
}

/// The email rule: an `@` must occur, and the length must lie between
/// `EMAIL_MIN` and `EMAIL_MAX`; the address is not trimmed.
pub open spec fn spec_validate_email(t: Seq<char>) -> Result<Seq<char>, CreateUserRequestError> {
    if !t.contains('@') {
        Err(CreateUserRequestError::EmailMissingAtSymbol)
    } else if t.len() < EMAIL_MIN {
        Err(CreateUserRequestError::EmailTooShort)
    } else if t.len() > EMAIL_MAX {
        Err(CreateUserRequestError::EmailTooLong)
    } else {
        Ok(t)
    }
}

/// The name rule: trimmed, non-empty, at most `NAME_MAX` characters.
pub open spec fn spec_validate_name(t: Seq<char>) -> Result<Seq<char>, CreateUserRequestError> {
    let w = trim_spec(t);
    if w.len() == 0 {
        Err(CreateUserRequestError::NameEmpty)
    } else if w.len() > NAME_MAX {
        Err(CreateUserRequestError::NameTooLong)
    } else {
        Ok(w)
    }
}

/// Checks the email rule; the address passes through unchanged.
pub fn validate_email(email: &str) -> (r: Result<String, CreateUserRequestError>)
    ensures
        (match r {
            Ok(t) => spec_validate_email(email@) == Ok::<_, CreateUserRequestError>(t@),
            Err(e) => spec_validate_email(email@) == Err::<Seq<char>, _>(e),
        }),
{
    if !contains_char(email, '@') {
        return Err(CreateUserRequestError::EmailMissingAtSymbol);
    }
    let len = email.unicode_len();
    if len < EMAIL_MIN {
        Err(CreateUserRequestError::EmailTooShort)
    } else if len > EMAIL_MAX {
        Err(CreateUserRequestError::EmailTooLong)
    } else {
        Ok(email.to_owned())
    }
}

/// Checks the name rule; on success the trimmed name comes back.
pub fn validate_name(name: &str) -> (r: Result<String, CreateUserRequestError>)
    ensures
        (match r {
            Ok(t) => spec_validate_name(name@) == Ok::<_, CreateUserRequestError>(t@),
            Err(e) => spec_validate_name(name@) == Err::<Seq<char>, _>(e),
        }),
{
    let trimmed = trim(name);
    let len = trimmed.as_str().unicode_len();
    if len == 0 {
        Err(CreateUserRequestError::NameEmpty)
    } else if len > NAME_MAX {
        Err(CreateUserRequestError::NameTooLong)
    } else {
        Ok(trimmed)
    }
}

/// The mathematical image of a validated parameter value.
pub struct CreateUserParamsView {
    pub email: Seq<char>,
    pub name: Seq<char>,
}

/// What construction of a `CreateUserParams` guarantees: the email
/// carries an `@` and lies within its bounds, the name is trimmed,
/// non-empty and within its bound.
pub open spec fn valid_user_params(p: CreateUserParamsView) -> bool {
    &&& p.email.contains('@')
    &&& EMAIL_MIN <= p.email.len() <= EMAIL_MAX
    &&& trim_spec(p.name) == p.name
    &&& 0 < p.name.len() <= NAME_MAX
}

/// The whole pipeline in its fixed order: email, then name; the first
/// failure wins.
pub open spec fn spec_create_user_params(req: CreateUserRequestView) -> Result<
    CreateUserParamsView,
    CreateUserRequestError,
> {
    match spec_validate_email(req.email) {
        Err(e) => Err(e),
        Ok(email) => match spec_validate_name(req.name) {
            Err(e) => Err(e),
            Ok(name) => Ok(CreateUserParamsView { email, name }),
        },
    }
}

/// A trusted, already-validated projection of a user-creation request.
/// A value of this type exists only once every rule of the validation
/// stage has passed; construction is the proof of validity.
#[derive(Debug)]
pub struct CreateUserParams {
    email: String,
    name: String,
}

impl View for CreateUserParams {
    type V = CreateUserParamsView;

    closed spec fn view(&self) -> CreateUserParamsView {
        CreateUserParamsView { email: self.email@, name: self.name@ }
    }
}

impl CreateUserParams {
    /// Runs the validation pipeline over the inbound request; the
    /// first violated rule is the outcome.
    pub fn try_from(req: CreateUserRequest) -> (r: Result<
        CreateUserParams,
        CreateUserRequestError,
    >)
        ensures
            (match r {
                Ok(p) => spec_create_user_params(req@) == Ok::<_, CreateUserRequestError>(p@)
                    && valid_user_params(p@),
                Err(e) => spec_create_user_params(req@) == Err::<CreateUserParamsView, _>(e),
            }),
    {
        let email = match validate_email(req.email.as_str()) {
            Ok(t) => t,
            Err(e) => { return Err(e) },
        };
        let name = match validate_name(req.name.as_str()) {
            Ok(t) => t,
            Err(e) => { return Err(e) },
        };
        proof {
            lemma_trim_idempotent(req.name@);
        }
        Ok(CreateUserParams { email, name })
    }

    pub fn email(&self) -> (r: &str)
        ensures
            r@ == self@.email,
    {
        self.email.as_str()
    }

    pub fn name(&self) -> (r: &str)
        ensures
            r@ == self@.name,
    {
        self.name.as_str()
    }
}

/// Law: a creation input whose email carries no `@` anywhere is
/// rejected by the whole pipeline with `MissingAtSymbol`, whatever the
/// name holds.
pub proof fn lemma_email_without_at_rejected(req: CreateUserRequestView)
    requires
        !req.email.contains('@'),
    ensures
        spec_create_user_params(req) == Err::<CreateUserParamsView, _>(
            CreateUserRequestError::EmailMissingAtSymbol,
        ),
{
}

/// Law: a creation input whose name is empty or whitespace-only is
/// rejected with the name's `Empty` error as soon as the email rule
/// passes.
pub proof fn lemma_blank_name_rejected(req: CreateUserRequestView)
    requires
        all_space(req.name),
        spec_validate_email(req.email) is Ok,
    ensures
        spec_create_user_params(req) == Err::<CreateUserParamsView, _>(
            CreateUserRequestError::NameEmpty,
        ),
{
    lemma_trim_all_space(req.name);
}

/// Law: a creation input whose trimmed name exceeds its bound is
/// rejected with the name's `TooLong` error as soon as the email rule
/// passes.
pub proof fn lemma_overlong_name_rejected(req: CreateUserRequestView)
    requires
        trim_spec(req.name).len() > NAME_MAX,
        spec_validate_email(req.email) is Ok,
    ensures
        spec_create_user_params(req) == Err::<CreateUserParamsView, _>(
            CreateUserRequestError::NameTooLong,
        ),
{
}

/// Law: an email over its bound is rejected with the email's
/// `TooLong` error when an `@` is present.
pub proof fn lemma_overlong_email_rejected(req: CreateUserRequestView)
    requires
        req.email.contains('@'),
        req.email.len() > EMAIL_MAX,
    ensures
        spec_create_user_params(req) == Err::<CreateUserParamsView, _>(
            CreateUserRequestError::EmailTooLong,
        ),
{
}

} // verus!
