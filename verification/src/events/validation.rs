//! The validation stage for event creation: an untrusted inbound
//! payload either becomes a trusted `CreateEventParams` value or is
//! rejected with the first violated rule.
//!
//! The rules run in a fixed order and stop at the first failure, so
//! each invalid input has exactly one observable error message.

use crate::text::{all_space, lemma_trim_all_space, lemma_trim_idempotent, trim, trim_spec};
use crate::time::Timestamp;
use vstd::prelude::*;

verus! {

/// The largest accepted length, in characters, of a trimmed title.
pub const TITLE_MAX: usize = 200;

/// The largest accepted length, in characters, of a trimmed
/// description.
pub const DESCRIPTION_MAX: usize = 2000;

/// The largest accepted length, in characters, of a trimmed venue
/// name.
pub const VENUE_NAME_MAX: usize = 100;

/// The untrusted inbound payload of an event-creation request, already
/// decoded from the wire but not yet validated.
#[derive(Debug)]
pub struct CreateEventRequest {
    pub title: String,
    pub description: String,
    pub event_date: Timestamp,
    pub venue_name: String,
}

/// The mathematical image of a creation request.
pub struct CreateEventRequestView {
    pub title: Seq<char>,
    pub description: Seq<char>,
    pub event_date: Timestamp,
    pub venue_name: Seq<char>,
}

impl View for CreateEventRequest {
    type V = CreateEventRequestView;

    open spec fn view(&self) -> CreateEventRequestView {
        CreateEventRequestView {
            title: self.title@,
            description: self.description@,
            event_date: self.event_date,
            venue_name: self.venue_name@,
        }
    }
}

/// The first rule an invalid event-creation request violates.
#[derive(Clone, Copy, PartialEq, Eq, Structural, Debug)]
pub enum CreateEventRequestError {
    TitleEmpty,
    TitleTooLong,
    DescriptionTooLong,
    EventDateInPast,
    VenueNameEmpty,
    VenueNameTooLong,
}

impl CreateEventRequestError {
    /// The message a rejected request reports.
    pub open spec fn message_spec(&self) -> Seq<char> {
        match self {
            CreateEventRequestError::TitleEmpty => "Title is required"@,
            CreateEventRequestError::TitleTooLong => "Title is too long (maximum 200 characters)"@,
            CreateEventRequestError::DescriptionTooLong => "Description is too long (maximum 2000 characters)"@,
            CreateEventRequestError::EventDateInPast => "Event date must be in the future"@,
            CreateEventRequestError::VenueNameEmpty => "Venue name is required"@,
            CreateEventRequestError::VenueNameTooLong => "Venue name is too long (maximum 100 characters)"@,
        }
    }

    /// Renders the message carried to the response body.
    pub fn message(&self) -> (r: String)
        ensures
            r@ == self.message_spec(),
    {
        match self {
            CreateEventRequestError::TitleEmpty => String::from_str("Title is required"),
            CreateEventRequestError::TitleTooLong => String::from_str(
                "Title is too long (maximum 200 characters)",
            ),
            CreateEventRequestError::DescriptionTooLong => String::from_str(
                "Description is too long (maximum 2000 characters)",
            ),
            CreateEventRequestError::EventDateInPast => String::from_str(
                "Event date must be in the future",
            ),
            CreateEventRequestError::VenueNameEmpty => String::from_str("Venue name is required"),
            CreateEventRequestError::VenueNameTooLong => String::from_str(
                "Venue name is too long (maximum 100 characters)",
            ),
        }
    }
}

/// The title rule: trimmed, non-empty, at most `TITLE_MAX` characters.
pub open spec fn spec_validate_title(t: Seq<char>) -> Result<Seq<char>, CreateEventRequestError> {
    let w = trim_spec(t);
    if w.len() == 0 {
        Err(CreateEventRequestError::TitleEmpty)
    } else if w.len() > TITLE_MAX {
        Err(CreateEventRequestError::TitleTooLong)
    } else {
        Ok(w)
    }
}

/// The description rule: trimmed, at most `DESCRIPTION_MAX` characters;
/// an empty description is accepted.
pub open spec fn spec_validate_description(t: Seq<char>) -> Result<
    Seq<char>,
    CreateEventRequestError,
> {
    let w = trim_spec(t);
    if w.len() > DESCRIPTION_MAX {
        Err(CreateEventRequestError::DescriptionTooLong)
    } else {
        Ok(w)
    }
}

/// The date rule: the event must lie strictly after the validation
/// instant.
pub open spec fn spec_validate_event_date(event_date: Timestamp, now: Timestamp) -> Result<
    (),
    CreateEventRequestError,
> {
    if event_date.micros <= now.micros {
        Err(CreateEventRequestError::EventDateInPast)
    } else {
        Ok(())
    }
}

/// The venue rule: trimmed, non-empty, at most `VENUE_NAME_MAX`
/// characters.
pub open spec fn spec_validate_venue_name(t: Seq<char>) -> Result<
    Seq<char>,
    CreateEventRequestError,
> {
    let w = trim_spec(t);
    if w.len() == 0 {
        Err(CreateEventRequestError::VenueNameEmpty)
    } else if w.len() > VENUE_NAME_MAX {
        Err(CreateEventRequestError::VenueNameTooLong)
    } else {
        Ok(w)
    }
}

/// Checks the title rule; on success the trimmed title comes back.
pub fn validate_title(title: &str) -> (r: Result<String, CreateEventRequestError>)
    ensures
        (match r {
            Ok(t) => spec_validate_title(title@) == Ok::<_, CreateEventRequestError>(t@),
            Err(e) => spec_validate_title(title@) == Err::<Seq<char>, _>(e),
        }),
{
    let trimmed = trim(title);
    let len = trimmed.as_str().unicode_len();
    if len == 0 {
        Err(CreateEventRequestError::TitleEmpty)
    } else if len > TITLE_MAX {
        Err(CreateEventRequestError::TitleTooLong)
    } else {
        Ok(trimmed)
    }
}

/// Checks the description rule; on success the trimmed description
/// comes back.
pub fn validate_description(description: &str) -> (r: Result<String, CreateEventRequestError>)
    ensures
        (match r {
            Ok(t) => spec_validate_description(description@) == Ok::<_, CreateEventRequestError>(
                t@,
            ),
            Err(e) => spec_validate_description(description@) == Err::<Seq<char>, _>(e),
        }),
{
    let trimmed = trim(description);
    let len = trimmed.as_str().unicode_len();
    if len > DESCRIPTION_MAX {
        Err(CreateEventRequestError::DescriptionTooLong)
    } else {
        Ok(trimmed)
    }
}

/// Checks the date rule against the validation instant.
pub fn validate_event_date(event_date: Timestamp, now: Timestamp) -> (r: Result<
    (),
    CreateEventRequestError,
>)
    ensures
        (match r {
            Ok(u) => spec_validate_event_date(event_date, now) == Ok::<
                (),
                CreateEventRequestError,
            >(u),
            Err(e) => spec_validate_event_date(event_date, now) == Err::<(), _>(e),
        }),
{
    if event_date.is_after(&now) {
        Ok(())
    } else {
        Err(CreateEventRequestError::EventDateInPast)
    }
}

/// Checks the venue rule; on success the trimmed venue name comes
/// back.
pub fn validate_venue_name(venue_name: &str) -> (r: Result<String, CreateEventRequestError>)
    ensures
        (match r {
            Ok(t) => spec_validate_venue_name(venue_name@) == Ok::<_, CreateEventRequestError>(t@),
            Err(e) => spec_validate_venue_name(venue_name@) == Err::<Seq<char>, _>(e),
        }),
{
    let trimmed = trim(venue_name);
    let len = trimmed.as_str().unicode_len();
    if len == 0 {
        Err(CreateEventRequestError::VenueNameEmpty)
    } else if len > VENUE_NAME_MAX {
        Err(CreateEventRequestError::VenueNameTooLong)
    } else {
        Ok(trimmed)
    }
}

/// The mathematical image of a validated parameter value.
pub struct CreateEventParamsView {
    pub title: Seq<char>,
    pub description: Seq<char>,
    pub event_date: Timestamp,
    pub venue_name: Seq<char>,
}

/// What construction of a `CreateEventParams` guarantees about its
/// string fields: each is already trimmed and within its bound, and the
/// required ones are non-empty.
pub open spec fn valid_event_params(p: CreateEventParamsView) -> bool {
    &&& trim_spec(p.title) == p.title
    &&& 0 < p.title.len() <= TITLE_MAX
    &&& trim_spec(p.description) == p.description
    &&& p.description.len() <= DESCRIPTION_MAX
    &&& trim_spec(p.venue_name) == p.venue_name
    &&& 0 < p.venue_name.len() <= VENUE_NAME_MAX
}

/// The whole pipeline in its fixed order: title, description, date,
/// venue; the first failure wins.
pub open spec fn spec_create_event_params(req: CreateEventRequestView, now: Timestamp) -> Result<
    CreateEventParamsView,
    CreateEventRequestError,
> {
    match spec_validate_title(req.title) {
        Err(e) => Err(e),
        Ok(title) => match spec_validate_description(req.description) {
            Err(e) => Err(e),
            Ok(description) => match spec_validate_event_date(req.event_date, now) {
                Err(e) => Err(e),
                Ok(_) => match spec_validate_venue_name(req.venue_name) {
                    Err(e) => Err(e),
                    Ok(venue_name) => Ok(
                        CreateEventParamsView {
                            title,
                            description,
                            event_date: req.event_date,
                            venue_name,
                        },
                    ),
                },
            },
        },
    }
}

/// A trusted, already-validated projection of an event-creation
/// request. A value of this type exists only once every rule of the
/// validation stage has passed; construction is the proof of validity.
#[derive(Debug)]
pub struct CreateEventParams {
    title: String,
    description: String,
    event_date: Timestamp,
    venue_name: String,
}

impl View for CreateEventParams {
    type V = CreateEventParamsView;

    closed spec fn view(&self) -> CreateEventParamsView {
        CreateEventParamsView {
            title: self.title@,
            description: self.description@,
            event_date: self.event_date,
            venue_name: self.venue_name@,
        }
    }
}

impl CreateEventParams {
    /// Runs the validation pipeline over the inbound request at the
    /// given instant; the first violated rule is the outcome.
    pub fn try_from(req: CreateEventRequest, now: Timestamp) -> (r: Result<
        CreateEventParams,
        CreateEventRequestError,
    >)
        ensures
            (match r {
                Ok(p) => spec_create_event_params(req@, now) == Ok::<_, CreateEventRequestError>(
                    p@,
                ) && valid_event_params(p@),
                Err(e) => spec_create_event_params(req@, now) == Err::<CreateEventParamsView, _>(
                    e,
                ),
            }),
    {
        let title = match validate_title(req.title.as_str()) {
            Ok(t) => t,
            Err(e) => { return Err(e) },
        };
        let description = match validate_description(req.description.as_str()) {
            Ok(t) => t,
            Err(e) => { return Err(e) },
        };
        match validate_event_date(req.event_date, now) {
            Ok(_) => (),
            Err(e) => { return Err(e) },
        };
        let venue_name = match validate_venue_name(req.venue_name.as_str()) {
            Ok(t) => t,
            Err(e) => { return Err(e) },
        };
        proof {
            lemma_trim_idempotent(req.title@);
            lemma_trim_idempotent(req.description@);
            lemma_trim_idempotent(req.venue_name@);
        }
        Ok(CreateEventParams { title, description, event_date: req.event_date, venue_name })
    }

    pub fn title(&self) -> (r: &str)
        ensures
            r@ == self@.title,
    {
        self.title.as_str()
    }

    pub fn description(&self) -> (r: &str)
        ensures
            r@ == self@.description,
    {
        self.description.as_str()
    }

    pub fn event_date(&self) -> (r: Timestamp)
        ensures
            r == self@.event_date,
    {
        self.event_date
    }

    pub fn venue_name(&self) -> (r: &str)
        ensures
            r@ == self@.venue_name,
    {
        self.venue_name.as_str()
    }
}

/// Law: a creation input whose title is empty or whitespace-only is
/// rejected by the whole pipeline with the title's `Empty` error,
/// whatever the other fields hold and whenever validation runs.
pub proof fn lemma_blank_title_rejected(req: CreateEventRequestView, now: Timestamp)
    requires
        all_space(req.title),
    ensures
        spec_create_event_params(req, now) == Err::<CreateEventParamsView, _>(
            CreateEventRequestError::TitleEmpty,
        ),
{
    lemma_trim_all_space(req.title);
}

/// Law: a creation input whose venue name is empty or whitespace-only
/// is rejected with the venue's `Empty` error as soon as the rules
/// before it pass.
pub proof fn lemma_blank_venue_rejected(req: CreateEventRequestView, now: Timestamp)
    requires
        all_space(req.venue_name),
        spec_validate_title(req.title) is Ok,
        spec_validate_description(req.description) is Ok,
        spec_validate_event_date(req.event_date, now) is Ok,
    ensures
        spec_create_event_params(req, now) == Err::<CreateEventParamsView, _>(
            CreateEventRequestError::VenueNameEmpty,
        ),
{
    lemma_trim_all_space(req.venue_name);
}

/// Law: a creation input whose trimmed title exceeds its bound is
/// rejected by the whole pipeline with the title's `TooLong` error.
pub proof fn lemma_overlong_title_rejected(req: CreateEventRequestView, now: Timestamp)
    requires
        trim_spec(req.title).len() > TITLE_MAX,
    ensures
        spec_create_event_params(req, now) == Err::<CreateEventParamsView, _>(
            CreateEventRequestError::TitleTooLong,
        ),
{
}

/// Law: a creation input whose trimmed description exceeds its bound
/// is rejected with the description's `TooLong` error as soon as the
/// title rule passes.
pub proof fn lemma_overlong_description_rejected(req: CreateEventRequestView, now: Timestamp)
    requires
        trim_spec(req.description).len() > DESCRIPTION_MAX,
        spec_validate_title(req.title) is Ok,
    ensures
        spec_create_event_params(req, now) == Err::<CreateEventParamsView, _>(
            CreateEventRequestError::DescriptionTooLong,
        ),
{
}

/// Law: a creation input whose trimmed venue name exceeds its bound is
/// rejected with the venue's `TooLong` error as soon as the rules
/// before it pass.
pub proof fn lemma_overlong_venue_rejected(req: CreateEventRequestView, now: Timestamp)
    requires
        trim_spec(req.venue_name).len() > VENUE_NAME_MAX,
        spec_validate_title(req.title) is Ok,
        spec_validate_description(req.description) is Ok,
        spec_validate_event_date(req.event_date, now) is Ok,
    ensures
        spec_create_event_params(req, now) == Err::<CreateEventParamsView, _>(
            CreateEventRequestError::VenueNameTooLong,
        ),
{
}

/// Law: an event date at or before the validation instant is rejected
/// with `InPast` as soon as the rules before it pass; a later date
/// passes the date rule.
pub proof fn lemma_past_date_rejected(req: CreateEventRequestView, now: Timestamp)
    requires
        req.event_date.micros <= now.micros,
        spec_validate_title(req.title) is Ok,
        spec_validate_description(req.description) is Ok,
    ensures
        spec_create_event_params(req, now) == Err::<CreateEventParamsView, _>(
            CreateEventRequestError::EventDateInPast,
        ),
        spec_validate_event_date(req.event_date, now) == Err::<(), _>(
            CreateEventRequestError::EventDateInPast,
        ),
{
}

/// Law: a date strictly after the validation instant passes the date
/// rule.
pub proof fn lemma_future_date_accepted(event_date: Timestamp, now: Timestamp)
    requires
        event_date.micros > now.micros,
    ensures
        spec_validate_event_date(event_date, now) == Ok::<(), CreateEventRequestError>(()),
{
}

} // verus!
