//! Laws of the users table: what a listing shows after registrations,
//! password updates and deletes.
use vstd::prelude::*;
use crate::store::StoreModel;
use crate::user::UserRow;

verus! {

/// The table after inserting each `(email, password)` pair in order.
pub open spec fn insert_all(m: StoreModel, entries: Seq<(Seq<char>, Seq<char>)>) -> StoreModel
    decreases entries.len(),
{
    if entries.len() == 0 {
        m
    } else {
        insert_all(m, entries.drop_last()).insert(entries.last().0, entries.last().1)
    }
}

/// The rows that inserting `entries` creates when the first id is `start`.
pub open spec fn fresh_rows(start: int, entries: Seq<(Seq<char>, Seq<char>)>) -> Seq<UserRow> {
    Seq::new(
        entries.len(),
        |j: int| UserRow { id: start + j, email: entries[j].0, password: entries[j].1 },
    )
}

/// In a well-formed table the row holding an id is the one `index_of` names.
pub proof fn lemma_index_of_unique(m: StoreModel, i: int)
    requires
        m.wf(),
        0 <= i < m.rows.len(),
    ensures
        m.has(m.rows[i].id),
        m.index_of(m.rows[i].id) == i,
{
    let id = m.rows[i].id;
    assert(m.rows[i].id == id);
    let j = m.index_of(id);
    assert(m.rows[j].id == id);
}

/// An insert keeps the table well formed.
pub proof fn lemma_insert_wf(m: StoreModel, email: Seq<char>, password: Seq<char>)
    requires
        m.wf(),
        m.can_insert(),
    ensures
        m.insert(email, password).wf(),
        !m.has(m.next_id),
{
    let n = m.insert(email, password);
    assert forall|i: int| 0 <= i < n.rows.len() implies 1 <= #[trigger] n.rows[i].id < n.next_id by {
        if i < m.rows.len() {
            assert(n.rows[i] == m.rows[i]);
        }
    }
    assert forall|i: int, j: int|
        0 <= i < n.rows.len() && 0 <= j < n.rows.len() && i != j
            implies #[trigger] n.rows[i].id != #[trigger] n.rows[j].id by {
        if i < m.rows.len() {
            assert(n.rows[i] == m.rows[i]);
        }
        if j < m.rows.len() {
            assert(n.rows[j] == m.rows[j]);
        }
    }
    if m.has(m.next_id) {
        let k = m.index_of(m.next_id);
        assert(m.rows[k].id < m.next_id);
    }
}

/// A registered user is listed right after, under the id it was given, with
/// its email and password, and no other listed row holds that id.
pub proof fn law_registered_user_is_listed(m: StoreModel, email: Seq<char>, password: Seq<char>)
    requires
        m.wf(),
        m.can_insert(),
    ensures
        ({
            let n = m.insert(email, password);
            let u = m.inserted_row(email, password);
            &&& n.wf()
            &&& !m.has(u.id)
            &&& n.rows.contains(u)
            &&& forall|i: int| 0 <= i < n.rows.len() && #[trigger] n.rows[i].id == u.id ==> n.rows[i] == u
        }),
{
    lemma_insert_wf(m, email, password);
    let n = m.insert(email, password);
    let u = m.inserted_row(email, password);
    assert(n.rows[m.rows.len() as int] == u);
    assert forall|i: int| 0 <= i < n.rows.len() && #[trigger] n.rows[i].id == u.id implies n.rows[i] == u by {
        if i < m.rows.len() {
            assert(n.rows[i] == m.rows[i]);
        }
    }
}

/// After a user is registered and its password is set to `new_password`, the
/// listing holds that user's id and email with the new password, and every
/// other row as it was.
pub proof fn law_update_after_register(
    m: StoreModel,
    email: Seq<char>,
    password: Seq<char>,
    new_password: Seq<char>,
)
    requires
        m.wf(),
        m.can_insert(),
    ensures
        ({
            let id = m.next_id;
            let n = m.insert(email, password);
            let k = n.update(id, new_password);
            &&& n.has(id)
            &&& k.rows == m.rows.push(UserRow { id, email, password: new_password })
        }),
{
    lemma_insert_wf(m, email, password);
    let n = m.insert(email, password);
    let last = m.rows.len() as int;
    lemma_index_of_unique(n, last);
    assert(n.update(m.next_id, new_password).rows =~= m.rows.push(
        UserRow { id: m.next_id, email, password: new_password },
    ));
}

/// A password update of an id that no row holds changes nothing.
pub proof fn law_update_missing(m: StoreModel, id: int, password: Seq<char>)
    requires
        !m.has(id),
    ensures
        m.update(id, password) == m,
{
}

/// Deleting a just-registered user removes one row and gives the table back
/// its earlier rows; deleting it again removes none.
pub proof fn law_delete_twice(m: StoreModel, email: Seq<char>, password: Seq<char>)
    requires
        m.wf(),
        m.can_insert(),
    ensures
        ({
            let id = m.next_id;
            let n = m.insert(email, password);
            let d = n.delete(id);
            &&& n.delete_count(id) == 1
            &&& d.rows == m.rows
            &&& d.delete_count(id) == 0
        }),
{
    lemma_insert_wf(m, email, password);
    let n = m.insert(email, password);
    let last = m.rows.len() as int;
    lemma_index_of_unique(n, last);
    let d = n.delete(m.next_id);
    assert(d.rows =~= m.rows);
}

/// Inserting a sequence of entries appends their fresh rows and advances the
/// next id by their number.
pub proof fn lemma_insert_all(m: StoreModel, entries: Seq<(Seq<char>, Seq<char>)>)
    requires
        m.wf(),
        m.next_id + entries.len() <= i32::MAX,
    ensures
        insert_all(m, entries).wf(),
        insert_all(m, entries).rows == m.rows + fresh_rows(m.next_id, entries),
        insert_all(m, entries).next_id == m.next_id + entries.len(),
    decreases entries.len(),
{
    if entries.len() == 0 {
        assert(m.rows + fresh_rows(m.next_id, entries) =~= m.rows);
    } else {
        let front = entries.drop_last();
        lemma_insert_all(m, front);
        let p = insert_all(m, front);
        lemma_insert_wf(p, entries.last().0, entries.last().1);
        assert(insert_all(m, entries).rows =~= m.rows + fresh_rows(m.next_id, entries));
    }
}

/// After registering `entries` one by one and deleting the `k`-th of them, the
/// listing holds the earlier rows and every other registered user with the id,
/// email and password it was given: one row fewer than were registered.
pub proof fn law_registrations_then_delete(
    m: StoreModel,
    entries: Seq<(Seq<char>, Seq<char>)>,
    k: int,
)
    requires
        m.wf(),
        m.next_id + entries.len() <= i32::MAX,
        0 <= k < entries.len(),
    ensures
        ({
            let d = insert_all(m, entries).delete(m.next_id + k);
            &&& d.rows == (m.rows + fresh_rows(m.next_id, entries)).remove(m.rows.len() + k)
            &&& d.rows.len() == m.rows.len() + entries.len() - 1
        }),
{
    lemma_insert_all(m, entries);
    let n = insert_all(m, entries);
    let at = m.rows.len() + k;
    assert(n.rows[at].id == m.next_id + k);
    lemma_index_of_unique(n, at);
}

} // verus!
