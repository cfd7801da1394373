//! The persistence abstraction for users: the capability interface
//! the use cases consume, its storage model, and a deterministic
//! in-memory implementation proved against it.

use crate::errors::{DomainError, DomainResult};
use crate::ids::{id_chars, EntityId};
use crate::time::Timestamp;
use crate::users::entity::{User, UserView};
use crate::users::validation::{valid_user_params, CreateUserParams, CreateUserParamsView};
use vstd::prelude::*;

verus! {

/// Whether some stored row already carries `id`.
pub open spec fn has_id(rows: Seq<UserView>, id: EntityId) -> bool {
    exists|k: int| 0 <= k < rows.len() && rows[k].id == id
}

/// The first stored row carrying `id`, if any.
pub open spec fn find_user(rows: Seq<UserView>, id: EntityId) -> Option<UserView>
    decreases rows.len(),
{
    if rows.len() == 0 {
        None
    } else if rows[0].id == id {
        Some(rows[0])
    } else {
        find_user(rows.drop_first(), id)
    }
}

/// The storage invariant: no two rows share an identifier, and no row
/// carries the all-zero one.
pub open spec fn user_rows_ok(rows: Seq<UserView>) -> bool {
    &&& forall|k1: int, k2: int|
        0 <= k1 < k2 < rows.len() ==> rows[k1].id != rows[k2].id
    &&& forall|k: int| 0 <= k < rows.len() ==> rows[k].id.value != 0
}

/// The exact wording of the missing-row report for `id`.
pub open spec fn user_not_found_message(id: EntityId) -> Seq<char> {
    "User with id "@ + id_chars(id.value) + " not found"@
}

/// Builds the missing-row report for `id`.
pub fn user_not_found_text(id: EntityId) -> (r: String)
    ensures
        r@ == user_not_found_message(id),
{
    let mut s = String::from_str("User with id ");
    let t = id.to_text();
    s.append(t.as_str());
    s.append(" not found");
    s
}

/// What any lookup outcome must satisfy against the stored rows: a hit
/// is exactly the stored row, a miss carries the exact report, and only
/// a storage failure may hide an existing row. A lookup never reports
/// a validation failure: every storage-side error is classified as
/// `NotFound` or `DatabaseError` at this boundary.
pub open spec fn user_lookup_post(
    rows: Seq<UserView>,
    id: EntityId,
    r: DomainResult<User>,
) -> bool {
    match r {
        Ok(e) => find_user(rows, id) == Some(e@),
        Err(DomainError::NotFound(m)) => find_user(rows, id) is None && m@
            == user_not_found_message(id),
        Err(DomainError::DatabaseError(_)) => true,
        Err(DomainError::ValidationError(_)) => false,
    }
}

/// What any creation outcome must satisfy: on success exactly one new
/// row is appended, under a fresh non-zero identifier, carrying the
/// validated fields and equal system timestamps. A failure is always
/// reported as `DatabaseError` — uniqueness violations included — and
/// the insert is atomic, so the rows are then unchanged.
pub open spec fn user_create_post(
    old_rows: Seq<UserView>,
    new_rows: Seq<UserView>,
    data: CreateUserParamsView,
    r: DomainResult<User>,
) -> bool {
    match r {
        Ok(e) => {
            &&& new_rows == old_rows.push(e@)
            &&& !has_id(old_rows, e@.id)
            &&& e@.id.value != 0
            &&& e@.email == data.email
            &&& e@.name == data.name
            &&& e@.created_at == e@.updated_at
        },
        Err(DomainError::DatabaseError(_)) => new_rows == old_rows,
        Err(_) => false,
    }
}

/// The persistence capability for users. Concrete storage backends
/// are supplied at wiring time; the use cases consume only this
/// interface. Implementations never expose a partially populated
/// entity and classify every failure into `DomainError`.
pub trait UserRepository: Sized {
    /// The rows currently persisted, oldest first.
    spec fn rows(&self) -> Seq<UserView>;

    /// Whether the storage invariant holds.
    spec fn inv(&self) -> bool;

    /// Looks the row with `id` up; reports `NotFound` exactly when no
    /// row matches, `DatabaseError` for a storage failure.
    fn find_by_id(&self, id: EntityId) -> (r: DomainResult<User>)
        requires
            self.inv(),
        ensures
            user_lookup_post(self.rows(), id, r),
    ;

    /// Persists one new row; the identifier and both timestamps are
    /// generated by the implementation, never taken from the caller.
    fn create(&mut self, data: CreateUserParams) -> (r: DomainResult<User>)
        requires
            old(self).inv(),
            valid_user_params(data@),
        ensures
            final(self).inv(),
            user_create_post(old(self).rows(), final(self).rows(), data@, r),
    ;
}

/// When the first `k` rows miss and row `k` hits, the lookup finds
/// exactly row `k`.
pub proof fn lemma_find_user_at(rows: Seq<UserView>, id: EntityId, k: int)
    requires
        0 <= k < rows.len(),
        forall|t: int| 0 <= t < k ==> rows[t].id != id,
        rows[k].id == id,
    ensures
        find_user(rows, id) == Some(rows[k]),
    decreases k,
{
    if k > 0 {
        lemma_find_user_at(rows.drop_first(), id, k - 1);
    }
}

/// When every row misses, the lookup finds nothing.
pub proof fn lemma_find_user_none(rows: Seq<UserView>, id: EntityId)
    requires
        forall|t: int| 0 <= t < rows.len() ==> rows[t].id != id,
    ensures
        find_user(rows, id) is None,
    decreases rows.len(),
{
    if rows.len() > 0 {
        lemma_find_user_none(rows.drop_first(), id);
    }
}

/// Law: a row just created is found again under its identifier,
/// unchanged — creating and then fetching by the returned id yields
/// exactly the created row.
pub proof fn lemma_create_then_find(rows: Seq<UserView>, e: UserView)
    requires
        !has_id(rows, e.id),
    ensures
        find_user(rows.push(e), e.id) == Some(e),
{
    lemma_find_user_at(rows.push(e), e.id, rows.len() as int);
}

/// Law: a lookup is a function of the stored rows and the identifier
/// alone, so with no intervening mutation two successful lookups agree
/// exactly.
pub proof fn lemma_lookup_deterministic(
    rows: Seq<UserView>,
    id: EntityId,
    r1: DomainResult<User>,
    r2: DomainResult<User>,
)
    requires
        user_lookup_post(rows, id, r1),
        user_lookup_post(rows, id, r2),
        r1 is Ok,
        r2 is Ok,
    ensures
        r1->Ok_0@ == r2->Ok_0@,
{
}

/// Law: however a set of creations is ordered, each against the rows
/// the previous ones left, the identifiers handed out are pairwise
/// distinct and every created row is kept.
pub proof fn lemma_creates_distinct(rows0: Seq<UserView>, added: Seq<UserView>)
    requires
        forall|k: int| 0 <= k < added.len() ==> !has_id(rows0 + added.take(k), #[trigger] added[k].id),
    ensures
        forall|k1: int, k2: int|
            0 <= k1 < k2 < added.len() ==> added[k1].id != added[k2].id,
{
    assert forall|k1: int, k2: int|
        0 <= k1 < k2 < added.len() implies added[k1].id != added[k2].id by {
        let merged = rows0 + added.take(k2);
        assert(merged[rows0.len() + k1] == added[k1]);
        assert(!has_id(merged, added[k2].id));
    }
}

/// A deterministic in-memory user store: rows live in a vector,
/// identifiers are handed out from a counter, and the clock is fixed at
/// construction. It backs the tests and shows the repository contract
/// is satisfiable; production wiring supplies a database-backed
/// sibling outside this crate.
pub struct InMemoryUserRepository {
    rows: Vec<User>,
    next_id: u128,
    now: Timestamp,
}

impl InMemoryUserRepository {
    /// Whether the identifier counter is exhausted — the one machine
    /// limit on which a creation may still fail.
    pub closed spec fn at_capacity(&self) -> bool {
        self.next_id == u128::MAX
    }

    /// Makes an empty store whose clock reads `now`.
    pub fn new(now: Timestamp) -> (r: Self)
        ensures
            r.inv(),
            r.rows() == Seq::<UserView>::empty(),
            !r.at_capacity(),
    {
        let r = InMemoryUserRepository { rows: Vec::new(), next_id: 1, now };
        proof {
            assert(r.rows() =~= Seq::<UserView>::empty());
        }
        r
    }
}

impl UserRepository for InMemoryUserRepository {
    closed spec fn rows(&self) -> Seq<UserView> {
        self.rows@.map_values(|e: User| e@)
    }

    closed spec fn inv(&self) -> bool {
        &&& user_rows_ok(self.rows())
        &&& forall|k: int| 0 <= k < self.rows@.len() ==> self.rows@[k]@.id.value < self.next_id
        &&& self.next_id >= 1
    }

    fn find_by_id(&self, id: EntityId) -> (r: DomainResult<User>)
        ensures
            r is Ok <==> find_user(self.rows(), id) is Some,
            !(r matches Err(DomainError::DatabaseError(_))),
    {
        let n = self.rows.len();
        let mut k: usize = 0;
        while k < n
            invariant
                n == self.rows.len(),
                0 <= k <= n,
                forall|t: int| 0 <= t < k ==> self.rows@[t]@.id != id,
            decreases n - k,
        {
            if self.rows[k].id().value == id.value {
                let found = self.rows[k].clone();
                proof {
                    lemma_find_user_at(self.rows(), id, k as int);
                }
                return Ok(found);
            }
            k = k + 1;
        }
        proof {
            lemma_find_user_none(self.rows(), id);
        }
        Err(DomainError::NotFound(user_not_found_text(id)))
    }

    fn create(&mut self, data: CreateUserParams) -> (r: DomainResult<User>)
        ensures
            r is Ok <==> !old(self).at_capacity(),
    {
        if self.next_id == u128::MAX {
            return Err(DomainError::DatabaseError(String::from_str("identifier space exhausted")));
        }
        let id = EntityId { value: self.next_id };
        self.next_id = self.next_id + 1;
        let email = String::from_str(data.email());
        let name = String::from_str(data.name());
        let e = User::new(id, email, name, self.now, self.now);
        let out = e.clone();
        proof {
            assert(!has_id(old(self).rows(), e@.id));
        }
        self.rows.push(e);
        proof {
            assert(self.rows() =~= old(self).rows().push(e@));
        }
        Ok(out)
    }
}

} // verus!
