//! The in-memory repositories against the repository contract: round
//! trips, the exact not-found report, lookup idempotence, and distinct
//! identifiers across many creations.

use service_core::errors::DomainError;
use service_core::events::repository::{EventRepository, InMemoryEventRepository};
use service_core::events::validation::{CreateEventParams, CreateEventRequest};
use service_core::ids::EntityId;
use service_core::time::Timestamp;
use service_core::users::repository::{InMemoryUserRepository, UserRepository};
use service_core::users::validation::{CreateUserParams, CreateUserRequest};

const NOW: Timestamp = Timestamp { micros: 1_700_000_000_000_000 };
const FUTURE: Timestamp = Timestamp { micros: 1_700_000_001_000_000 };

fn event_params(title: &str) -> CreateEventParams {
    CreateEventParams::try_from(
        CreateEventRequest {
            title: title.to_string(),
            description: "Doors at six".to_string(),
            event_date: FUTURE,
            venue_name: "Town Hall".to_string(),
        },
        NOW,
    )
    .unwrap()
}

fn user_params(email: &str, name: &str) -> CreateUserParams {
    CreateUserParams::try_from(CreateUserRequest {
        email: email.to_string(),
        name: name.to_string(),
    })
    .unwrap()
}

#[test]
fn test_create_then_find_round_trip() {
    let mut repo = InMemoryEventRepository::new(NOW);
    let created = repo.create(event_params("Recital")).unwrap();
    let fetched = repo.find_by_id(created.id()).unwrap();

    assert_eq!(fetched.id(), created.id(), "the id is stable and reused");
    assert_eq!(fetched.title(), "Recital");
    assert_eq!(fetched.description(), "Doors at six");
    assert_eq!(fetched.event_date(), FUTURE);
    assert_eq!(fetched.venue_name(), "Town Hall");
    assert_eq!(fetched.created_at(), NOW);
    assert_eq!(fetched.updated_at(), NOW);
}

#[test]
fn test_created_timestamps_equal() {
    let mut repo = InMemoryEventRepository::new(NOW);
    let created = repo.create(event_params("Recital")).unwrap();
    assert_eq!(created.created_at(), created.updated_at());
}

#[test]
fn test_find_unknown_id_not_found_with_exact_message() {
    let repo = InMemoryEventRepository::new(NOW);
    let missing = EntityId { value: 42 };
    match repo.find_by_id(missing) {
        Err(DomainError::NotFound(msg)) => {
            assert_eq!(msg, "Event with id 00000000-0000-0000-0000-00000000002a not found");
        }
        other => panic!("expected NotFound, got {:?}", other),
    }
}

#[test]
fn test_user_find_unknown_id_not_found_with_exact_message() {
    let repo = InMemoryUserRepository::new(NOW);
    let missing = EntityId { value: 1 };
    match repo.find_by_id(missing) {
        Err(DomainError::NotFound(msg)) => {
            assert_eq!(msg, "User with id 00000000-0000-0000-0000-000000000001 not found");
        }
        other => panic!("expected NotFound, got {:?}", other),
    }
}

#[test]
fn test_find_by_id_is_idempotent() {
    let mut repo = InMemoryEventRepository::new(NOW);
    let created = repo.create(event_params("Recital")).unwrap();
    let first = repo.find_by_id(created.id()).unwrap();
    let second = repo.find_by_id(created.id()).unwrap();

    assert_eq!(first.id(), second.id());
    assert_eq!(first.title(), second.title());
    assert_eq!(first.description(), second.description());
    assert_eq!(first.event_date(), second.event_date());
    assert_eq!(first.venue_name(), second.venue_name());
    assert_eq!(first.created_at(), second.created_at());
    assert_eq!(first.updated_at(), second.updated_at());
}

#[test]
fn test_many_creates_yield_distinct_ids_and_rows() {
    let mut repo = InMemoryEventRepository::new(NOW);
    let n = 50;
    let mut ids: Vec<EntityId> = Vec::new();
    for k in 0..n {
        let created = repo.create(event_params(&format!("Show {}", k))).unwrap();
        ids.push(created.id());
    }
    for a in 0..n {
        for b in (a + 1)..n {
            assert_ne!(ids[a].value, ids[b].value, "identifiers must be pairwise distinct");
        }
    }
    // None lost: each created row is still found under its id, with
    // its own fields.
    for (k, id) in ids.iter().enumerate() {
        let fetched = repo.find_by_id(*id).unwrap();
        assert_eq!(fetched.title(), format!("Show {}", k));
    }
}

#[test]
fn test_user_create_then_find_round_trip() {
    let mut repo = InMemoryUserRepository::new(NOW);
    let created = repo.create(user_params("user@example.com", "John Doe")).unwrap();
    let fetched = repo.find_by_id(created.id()).unwrap();

    assert_eq!(fetched.id(), created.id());
    assert_eq!(fetched.email(), "user@example.com");
    assert_eq!(fetched.name(), "John Doe");
    assert_eq!(fetched.created_at(), NOW);
    assert_eq!(fetched.updated_at(), NOW);
}

#[test]
fn test_user_creates_yield_distinct_ids() {
    let mut repo = InMemoryUserRepository::new(NOW);
    let a = repo.create(user_params("a@example.com", "A")).unwrap();
    let b = repo.create(user_params("b@example.com", "B")).unwrap();
    let c = repo.create(user_params("c@example.com", "C")).unwrap();
    assert_ne!(a.id(), b.id());
    assert_ne!(a.id(), c.id());
    assert_ne!(b.id(), c.id());
}

#[test]
fn test_entity_id_canonical_text() {
    let id = EntityId { value: 0x550e8400_e29b_41d4_a716_446655440000u128 };
    assert_eq!(id.to_text(), "550e8400-e29b-41d4-a716-446655440000");
    let small = EntityId { value: 1 };
    assert_eq!(small.to_text(), "00000000-0000-0000-0000-000000000001");
    let top = EntityId { value: u128::MAX };
    assert_eq!(top.to_text(), "ffffffff-ffff-ffff-ffff-ffffffffffff");
}
