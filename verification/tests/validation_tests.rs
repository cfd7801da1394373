//! The validation stage: each rule, its exact error and message, the
//! fixed fail-fast order, and the documented edge cases.

use service_core::events::validation::{
    validate_description, validate_event_date, validate_title, validate_venue_name,
    CreateEventParams, CreateEventRequest, CreateEventRequestError,
};
use service_core::time::Timestamp;
use service_core::users::validation::{
    validate_email, validate_name, CreateUserParams, CreateUserRequest, CreateUserRequestError,
};

fn event_request(title: &str, description: &str, event_date: Timestamp, venue: &str) -> CreateEventRequest {
    CreateEventRequest {
        title: title.to_string(),
        description: description.to_string(),
        event_date,
        venue_name: venue.to_string(),
    }
}

const NOW: Timestamp = Timestamp { micros: 1_700_000_000_000_000 };
const FUTURE: Timestamp = Timestamp { micros: 1_700_000_001_000_000 };

#[test]
fn test_empty_title_rejected() {
    let req = event_request("", "d", FUTURE, "v");
    let r = CreateEventParams::try_from(req, NOW);
    assert!(matches!(r, Err(CreateEventRequestError::TitleEmpty)));
}

#[test]
fn test_whitespace_only_title_rejected() {
    let req = event_request(" \t\n  ", "d", FUTURE, "v");
    let r = CreateEventParams::try_from(req, NOW);
    assert!(matches!(r, Err(CreateEventRequestError::TitleEmpty)));
}

#[test]
fn test_title_of_201_characters_rejected() {
    let r = validate_title(&"a".repeat(201));
    assert!(matches!(r, Err(CreateEventRequestError::TitleTooLong)));
    let ok = validate_title(&"a".repeat(200));
    assert_eq!(ok.unwrap(), "a".repeat(200));
}

#[test]
fn test_title_is_trimmed() {
    let r = validate_title("  Summer Festival  ");
    assert_eq!(r.unwrap(), "Summer Festival");
}

#[test]
fn test_title_trimmed_to_bound_accepted() {
    // 200 characters once trimmed, more before trimming.
    let r = validate_title(&format!("  {}  ", "a".repeat(200)));
    assert_eq!(r.unwrap(), "a".repeat(200));
}

#[test]
fn test_description_of_2001_characters_rejected() {
    let r = validate_description(&"d".repeat(2001));
    assert!(matches!(r, Err(CreateEventRequestError::DescriptionTooLong)));
}

#[test]
fn test_empty_description_accepted() {
    let r = validate_description("");
    assert_eq!(r.unwrap(), "");
}

#[test]
fn test_venue_name_empty_rejected() {
    let r = validate_venue_name("   ");
    assert!(matches!(r, Err(CreateEventRequestError::VenueNameEmpty)));
}

#[test]
fn test_venue_name_of_101_characters_rejected() {
    let r = validate_venue_name(&"v".repeat(101));
    assert!(matches!(r, Err(CreateEventRequestError::VenueNameTooLong)));
}

#[test]
fn test_event_date_at_validation_instant_rejected() {
    let r = validate_event_date(NOW, NOW);
    assert!(matches!(r, Err(CreateEventRequestError::EventDateInPast)));
}

#[test]
fn test_event_date_before_validation_instant_rejected() {
    let past = Timestamp { micros: NOW.micros - 1 };
    let r = validate_event_date(past, NOW);
    assert!(matches!(r, Err(CreateEventRequestError::EventDateInPast)));
}

#[test]
fn test_event_date_one_second_in_future_accepted() {
    let one_second_later = Timestamp { micros: NOW.micros + 1_000_000 };
    let r = validate_event_date(one_second_later, NOW);
    assert!(r.is_ok());
}

#[test]
fn test_validation_order_is_fail_fast() {
    // Both the title and the date are invalid; the title rule runs
    // first, so its error is the one observed.
    let req = event_request("", "d", NOW, "");
    let r = CreateEventParams::try_from(req, NOW);
    assert!(matches!(r, Err(CreateEventRequestError::TitleEmpty)));

    // Title valid, date and venue invalid: the date rule runs before
    // the venue rule.
    let req = event_request("t", "d", NOW, "");
    let r = CreateEventParams::try_from(req, NOW);
    assert!(matches!(r, Err(CreateEventRequestError::EventDateInPast)));
}

#[test]
fn test_valid_event_request_accepted() {
    let req = event_request("  Title ", " Desc ", FUTURE, " Venue ");
    let p = CreateEventParams::try_from(req, NOW).unwrap();
    assert_eq!(p.title(), "Title");
    assert_eq!(p.description(), "Desc");
    assert_eq!(p.event_date(), FUTURE);
    assert_eq!(p.venue_name(), "Venue");
}

#[test]
fn test_event_error_messages_exact() {
    assert_eq!(CreateEventRequestError::TitleEmpty.message(), "Title is required");
    assert_eq!(
        CreateEventRequestError::TitleTooLong.message(),
        "Title is too long (maximum 200 characters)"
    );
    assert_eq!(
        CreateEventRequestError::DescriptionTooLong.message(),
        "Description is too long (maximum 2000 characters)"
    );
    assert_eq!(
        CreateEventRequestError::EventDateInPast.message(),
        "Event date must be in the future"
    );
    assert_eq!(CreateEventRequestError::VenueNameEmpty.message(), "Venue name is required");
    assert_eq!(
        CreateEventRequestError::VenueNameTooLong.message(),
        "Venue name is too long (maximum 100 characters)"
    );
}

#[test]
fn test_email_without_at_rejected() {
    let r = validate_email("ab");
    assert!(matches!(r, Err(CreateUserRequestError::EmailMissingAtSymbol)));
    let r = validate_email("user.example.com");
    assert!(matches!(r, Err(CreateUserRequestError::EmailMissingAtSymbol)));
}

#[test]
fn test_shortest_valid_email_accepted() {
    // "a@b": length 3, contains '@'.
    let r = validate_email("a@b");
    assert_eq!(r.unwrap(), "a@b");
}

#[test]
fn test_email_shorter_than_three_rejected() {
    let r = validate_email("a@");
    assert!(matches!(r, Err(CreateUserRequestError::EmailTooShort)));
}

#[test]
fn test_email_of_255_characters_rejected() {
    let local = "a".repeat(253);
    let r = validate_email(&format!("{}@b", local));
    assert!(matches!(r, Err(CreateUserRequestError::EmailTooLong)));
}

#[test]
fn test_email_is_not_trimmed() {
    // The email rule passes the address through unchanged, spaces
    // included.
    let r = validate_email(" a@b ");
    assert_eq!(r.unwrap(), " a@b ");
}

#[test]
fn test_empty_name_rejected() {
    let r = validate_name("  ");
    assert!(matches!(r, Err(CreateUserRequestError::NameEmpty)));
}

#[test]
fn test_name_of_256_characters_rejected() {
    let r = validate_name(&"n".repeat(256));
    assert!(matches!(r, Err(CreateUserRequestError::NameTooLong)));
}

#[test]
fn test_valid_user_request_accepted() {
    let req = CreateUserRequest {
        email: "user@example.com".to_string(),
        name: "  John Doe ".to_string(),
    };
    let p = CreateUserParams::try_from(req).unwrap();
    assert_eq!(p.email(), "user@example.com");
    assert_eq!(p.name(), "John Doe");
}

#[test]
fn test_user_validation_order_is_fail_fast() {
    // Both fields invalid: the email rule runs first.
    let req = CreateUserRequest { email: "nope".to_string(), name: "".to_string() };
    let r = CreateUserParams::try_from(req);
    assert!(matches!(r, Err(CreateUserRequestError::EmailMissingAtSymbol)));
}

#[test]
fn test_user_error_messages_exact() {
    assert_eq!(
        CreateUserRequestError::EmailMissingAtSymbol.message(),
        "Email must contain an @ symbol"
    );
    assert_eq!(
        CreateUserRequestError::EmailTooShort.message(),
        "Email is too short (minimum 3 characters)"
    );
    assert_eq!(
        CreateUserRequestError::EmailTooLong.message(),
        "Email is too long (maximum 254 characters)"
    );
    assert_eq!(CreateUserRequestError::NameEmpty.message(), "Name cannot be empty");
    assert_eq!(
        CreateUserRequestError::NameTooLong.message(),
        "Name is too long (maximum 255 characters)"
    );
}

#[test]
fn test_unicode_whitespace_is_trimmed() {
    // A no-break space and an ideographic space count as whitespace.
    let r = validate_name("\u{a0}\u{3000}Ann\u{a0}");
    assert_eq!(r.unwrap(), "Ann");
}

#[test]
fn test_length_counts_characters_not_bytes() {
    // 200 multi-byte characters are within the title bound even though
    // the byte length is far larger.
    let r = validate_title(&"\u{e9}".repeat(200));
    assert_eq!(r.unwrap(), "\u{e9}".repeat(200));
    let r = validate_title(&"\u{e9}".repeat(201));
    assert!(matches!(r, Err(CreateEventRequestError::TitleTooLong)));
}
