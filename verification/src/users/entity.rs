//! The user entity: one persisted resource instance, immutable after
//! construction.

use crate::ids::EntityId;
use crate::time::Timestamp;
use vstd::prelude::*;

verus! {

/// The mathematical image of a `User`: every attribute as a plain
/// value.
pub struct UserView {
    pub id: EntityId,
    pub email: Seq<char>,
    pub name: Seq<char>,
    pub created_at: Timestamp,
    pub updated_at: Timestamp,
}

/// One persisted user. The identifier and both system timestamps are
/// generated server-side at creation; no operation mutates an entity
/// afterwards.
#[derive(Debug)]
pub struct User {
    id: EntityId,
    email: String,
    name: String,
    created_at: Timestamp,
    updated_at: Timestamp,
}

impl View for User {
    type V = UserView;

    closed spec fn view(&self) -> UserView {
        UserView {
            id: self.id,
            email: self.email@,
            name: self.name@,
            created_at: self.created_at,
            updated_at: self.updated_at,
        }
    }
}

impl User {
    /// Assembles an entity from an already-generated identifier and
    /// timestamps together with its business attributes.
    pub fn new(
        id: EntityId,
        email: String,
        name: String,
        created_at: Timestamp,
        updated_at: Timestamp,
    ) -> (r: User)
        ensures
            r@ == (UserView { id, email: email@, name: name@, created_at, updated_at }),
    {
        User { id, email, name, created_at, updated_at }
    }

    pub fn id(&self) -> (r: EntityId)
        ensures
            r == self@.id,
    {
        self.id
    }

    pub fn email(&self) -> (r: &str)
        ensures
            r@ == self@.email,
    {
        self.email.as_str()
    }

    pub fn name(&self) -> (r: &str)
        ensures
            r@ == self@.name,
    {
        self.name.as_str()
    }

    pub fn created_at(&self) -> (r: Timestamp)
        ensures
            r == self@.created_at,
    {
        self.created_at
    }

    pub fn updated_at(&self) -> (r: Timestamp)
        ensures
            r == self@.updated_at,
    {
        self.updated_at
    }
}

impl Clone for User {
    /// A clone carries exactly the same value.
    fn clone(&self) -> (res: Self)
        ensures
            res == *self,
    {
        User {
            id: self.id,
            email: self.email.clone(),
            name: self.name.clone(),
            created_at: self.created_at,
            updated_at: self.updated_at,
        }
    }
}

} // verus!
