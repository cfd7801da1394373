//! The HTTP decision layer: the exact status mapping and the bodies
//! each outcome carries.

use service_core::errors::DomainError;
use service_core::events::http::{
    create_event, get_event, CreateEventError, CreateEventReply, GetEventError, GetEventReply,
};
use service_core::events::repository::InMemoryEventRepository;
use service_core::events::use_cases::{CreateEventUseCase, GetEventUseCase};
use service_core::events::validation::CreateEventRequest;
use service_core::ids::EntityId;
use service_core::time::Timestamp;
use service_core::users::http::{
    create_user, get_user, CreateUserReply, GetUserReply,
};
use service_core::users::repository::InMemoryUserRepository;
use service_core::users::use_cases::{CreateUserUseCase, GetUserUseCase};
use service_core::users::validation::CreateUserRequest;

const NOW: Timestamp = Timestamp { micros: 1_700_000_000_000_000 };
const FUTURE: Timestamp = Timestamp { micros: 1_700_000_001_000_000 };

fn event_request(title: &str) -> CreateEventRequest {
    CreateEventRequest {
        title: title.to_string(),
        description: "Doors at six".to_string(),
        event_date: FUTURE,
        venue_name: "Town Hall".to_string(),
    }
}

#[test]
fn test_create_event_success_is_201_with_entity_body() {
    let mut use_case = CreateEventUseCase::new(InMemoryEventRepository::new(NOW));
    let reply = create_event(&mut use_case, event_request("Recital"), NOW);
    assert_eq!(reply.status_code(), 201);
    match reply {
        CreateEventReply::Created(body) => {
            assert_eq!(body.title, "Recital");
            assert_eq!(body.description, "Doors at six");
            assert_eq!(body.event_date, FUTURE);
            assert_eq!(body.venue_name, "Town Hall");
            assert_eq!(body.created_at, body.updated_at);
        }
        other => panic!("expected Created, got {:?}", other),
    }
}

#[test]
fn test_create_event_validation_failure_is_400_with_message() {
    let mut use_case = CreateEventUseCase::new(InMemoryEventRepository::new(NOW));
    let reply = create_event(&mut use_case, event_request("   "), NOW);
    assert_eq!(reply.status_code(), 400);
    match reply {
        CreateEventReply::BadRequest(body) => assert_eq!(body.error, "Title is required"),
        other => panic!("expected BadRequest, got {:?}", other),
    }
}

#[test]
fn test_create_event_rejected_input_stores_nothing() {
    let mut use_case = CreateEventUseCase::new(InMemoryEventRepository::new(NOW));
    let reply = create_event(&mut use_case, event_request("  "), NOW);
    assert_eq!(reply.status_code(), 400);
    // The use case was never invoked, so the first accepted creation
    // still receives the first identifier.
    let reply = create_event(&mut use_case, event_request("Recital"), NOW);
    match reply {
        CreateEventReply::Created(body) => {
            assert_eq!(body.id, EntityId { value: 1 });
        }
        other => panic!("expected Created, got {:?}", other),
    }
}

#[test]
fn test_get_event_unknown_id_is_404_with_exact_body() {
    let mut use_case = GetEventUseCase::new(InMemoryEventRepository::new(NOW));
    let reply = get_event(&mut use_case, EntityId { value: 7 });
    assert_eq!(reply.status_code(), 404);
    match reply {
        GetEventReply::NotFound(body) => {
            assert_eq!(body.error, "Event with id 00000000-0000-0000-0000-000000000007 not found");
        }
        other => panic!("expected NotFound, got {:?}", other),
    }
}

#[test]
fn test_create_then_get_event_through_handlers() {
    let mut create_uc = CreateEventUseCase::new(InMemoryEventRepository::new(NOW));
    let created_id = match create_event(&mut create_uc, event_request("Recital"), NOW) {
        CreateEventReply::Created(body) => body.id,
        other => panic!("expected Created, got {:?}", other),
    };
    let mut get_uc = GetEventUseCase::new(create_uc.into_repository());
    let reply = get_event(&mut get_uc, created_id);
    assert_eq!(reply.status_code(), 200);
    match reply {
        GetEventReply::Found(body) => {
            assert_eq!(body.id, created_id);
            assert_eq!(body.title, "Recital");
        }
        other => panic!("expected Found, got {:?}", other),
    }
}

#[test]
fn test_reply_status_codes_cover_every_outcome() {
    let server_error = CreateEventReply::ServerError(CreateEventError {
        error: "boom".to_string(),
    });
    assert_eq!(server_error.status_code(), 500);
    let get_server_error = GetEventReply::ServerError(GetEventError { error: "boom".to_string() });
    assert_eq!(get_server_error.status_code(), 500);
}

#[test]
fn test_create_user_success_is_201_with_entity_body() {
    let mut use_case = CreateUserUseCase::new(InMemoryUserRepository::new(NOW));
    let req = CreateUserRequest {
        email: "user@example.com".to_string(),
        name: " John Doe ".to_string(),
    };
    let reply = create_user(&mut use_case, req);
    assert_eq!(reply.status_code(), 201);
    match reply {
        CreateUserReply::Created(body) => {
            assert_eq!(body.email, "user@example.com");
            assert_eq!(body.name, "John Doe");
            assert_eq!(body.created_at, body.updated_at);
        }
        other => panic!("expected Created, got {:?}", other),
    }
}

#[test]
fn test_create_user_validation_failure_is_400_with_message() {
    let mut use_case = CreateUserUseCase::new(InMemoryUserRepository::new(NOW));
    let req = CreateUserRequest { email: "nope".to_string(), name: "John".to_string() };
    let reply = create_user(&mut use_case, req);
    assert_eq!(reply.status_code(), 400);
    match reply {
        CreateUserReply::BadRequest(body) => {
            assert_eq!(body.error, "Email must contain an @ symbol");
        }
        other => panic!("expected BadRequest, got {:?}", other),
    }
}

#[test]
fn test_get_user_unknown_id_is_404_with_exact_body() {
    let mut use_case = GetUserUseCase::new(InMemoryUserRepository::new(NOW));
    let reply = get_user(&mut use_case, EntityId { value: 3 });
    assert_eq!(reply.status_code(), 404);
    match reply {
        GetUserReply::NotFound(body) => {
            assert_eq!(body.error, "User with id 00000000-0000-0000-0000-000000000003 not found");
        }
        other => panic!("expected NotFound, got {:?}", other),
    }
}

#[test]
fn test_domain_error_messages_exact() {
    assert_eq!(
        DomainError::NotFound("row 1".to_string()).message(),
        "Not found: row 1"
    );
    assert_eq!(
        DomainError::DatabaseError("connection reset".to_string()).message(),
        "Database error: connection reset"
    );
    assert_eq!(
        DomainError::ValidationError("bad field".to_string()).message(),
        "Validation error: bad field"
    );
}
