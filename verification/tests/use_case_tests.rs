//! The use cases and their error translation: one repository call per
//! execution, the exact mapping of storage failures, and the
//! defensive flattening of kinds the orchestration treats as
//! impossible.

use service_core::errors::DomainError;
use service_core::events::repository::InMemoryEventRepository;
use service_core::events::use_cases::{
    map_create_event_error, map_get_event_error, CreateEventUseCase, CreateEventUseCaseError,
    GetEventUseCase, GetEventUseCaseError,
};
use service_core::events::validation::{CreateEventParams, CreateEventRequest};
use service_core::ids::EntityId;
use service_core::time::Timestamp;
use service_core::users::repository::InMemoryUserRepository;
use service_core::users::use_cases::{
    map_create_user_error, map_get_user_error, CreateUserUseCase, CreateUserUseCaseError,
    GetUserUseCase, GetUserUseCaseError,
};
use service_core::users::validation::{CreateUserParams, CreateUserRequest};
use service_core::UseCase;

const NOW: Timestamp = Timestamp { micros: 1_700_000_000_000_000 };
const FUTURE: Timestamp = Timestamp { micros: 1_700_000_001_000_000 };

fn event_params() -> CreateEventParams {
    CreateEventParams::try_from(
        CreateEventRequest {
            title: "Recital".to_string(),
            description: "Doors at six".to_string(),
            event_date: FUTURE,
            venue_name: "Town Hall".to_string(),
        },
        NOW,
    )
    .unwrap()
}

#[test]
fn test_create_event_use_case_returns_persisted_entity() {
    let mut use_case = CreateEventUseCase::new(InMemoryEventRepository::new(NOW));
    let event = use_case.execute(event_params()).unwrap();
    assert_eq!(event.title(), "Recital");
    assert_eq!(event.event_date(), FUTURE);
    assert_eq!(event.created_at(), event.updated_at());
    assert_ne!(event.id().value, 0);
}

#[test]
fn test_create_then_get_through_use_cases() {
    let mut create = CreateEventUseCase::new(InMemoryEventRepository::new(NOW));
    let created = create.execute(event_params()).unwrap();
    let mut get = GetEventUseCase::new(create.into_repository());
    let fetched = get.execute(created.id()).unwrap();
    assert_eq!(fetched.id(), created.id());
    assert_eq!(fetched.title(), created.title());
}

#[test]
fn test_get_event_use_case_not_found() {
    let mut use_case = GetEventUseCase::new(InMemoryEventRepository::new(NOW));
    match use_case.execute(EntityId { value: 9 }) {
        Err(GetEventUseCaseError::NotFound(msg)) => {
            assert_eq!(msg, "Event with id 00000000-0000-0000-0000-000000000009 not found");
        }
        other => panic!("expected NotFound, got {:?}", other),
    }
}

#[test]
fn test_map_create_event_error_passes_database_error_through() {
    let r = map_create_event_error(DomainError::DatabaseError("connection reset".to_string()));
    match r {
        CreateEventUseCaseError::DatabaseError(msg) => assert_eq!(msg, "connection reset"),
    }
}

#[test]
fn test_map_create_event_error_flattens_unexpected_kinds() {
    let r = map_create_event_error(DomainError::NotFound("whatever".to_string()));
    match r {
        CreateEventUseCaseError::DatabaseError(msg) => assert_eq!(msg, "Unexpected error"),
    }
    let r = map_create_event_error(DomainError::ValidationError("whatever".to_string()));
    match r {
        CreateEventUseCaseError::DatabaseError(msg) => assert_eq!(msg, "Unexpected error"),
    }
}

#[test]
fn test_map_get_event_error_keeps_kinds_apart() {
    match map_get_event_error(DomainError::NotFound("m".to_string())) {
        GetEventUseCaseError::NotFound(msg) => assert_eq!(msg, "m"),
        other => panic!("expected NotFound, got {:?}", other),
    }
    match map_get_event_error(DomainError::DatabaseError("boom".to_string())) {
        GetEventUseCaseError::DatabaseError(msg) => assert_eq!(msg, "boom"),
        other => panic!("expected DatabaseError, got {:?}", other),
    }
    match map_get_event_error(DomainError::ValidationError("odd".to_string())) {
        GetEventUseCaseError::DatabaseError(msg) => assert_eq!(msg, "Unexpected error"),
        other => panic!("expected flattening, got {:?}", other),
    }
}

#[test]
fn test_user_use_cases_round_trip() {
    let params = CreateUserParams::try_from(CreateUserRequest {
        email: "user@example.com".to_string(),
        name: "John Doe".to_string(),
    })
    .unwrap();
    let mut create = CreateUserUseCase::new(InMemoryUserRepository::new(NOW));
    let created = create.execute(params).unwrap();
    let mut get = GetUserUseCase::new(create.into_repository());
    let fetched = get.execute(created.id()).unwrap();
    assert_eq!(fetched.email(), "user@example.com");
    assert_eq!(fetched.name(), "John Doe");
}

#[test]
fn test_user_error_mapping() {
    match map_create_user_error(DomainError::ValidationError("odd".to_string())) {
        CreateUserUseCaseError::DatabaseError(msg) => assert_eq!(msg, "Unexpected error"),
    }
    match map_get_user_error(DomainError::NotFound("m".to_string())) {
        GetUserUseCaseError::NotFound(msg) => assert_eq!(msg, "m"),
        other => panic!("expected NotFound, got {:?}", other),
    }
}
