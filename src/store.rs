//! An in-process users table: insert with a generated id, update of the
//! password by id, delete by id, and a full listing.
use vstd::prelude::*;
use crate::user::{NewUser, UserProfile, UserRow};

verus! {

/// The mathematical view of the table: its rows in order, and the id the next
/// insert receives.
pub struct StoreModel {
    pub rows: Seq<UserRow>,
    pub next_id: int,
}

pub open spec fn rows_of(users: Seq<UserProfile>) -> Seq<UserRow> {
    users.map_values(|u: UserProfile| u.row())
}

impl StoreModel {
    pub open spec fn empty() -> StoreModel {
        StoreModel { rows: Seq::empty(), next_id: 1 }
    }

    /// Ids are positive, below the next id, and pairwise distinct.
    pub open spec fn wf(self) -> bool {
        &&& 1 <= self.next_id <= i32::MAX
        &&& forall|i: int| 0 <= i < self.rows.len() ==> 1 <= #[trigger] self.rows[i].id < self.next_id
        &&& forall|i: int, j: int|
            0 <= i < self.rows.len() && 0 <= j < self.rows.len() && i != j
                ==> #[trigger] self.rows[i].id != #[trigger] self.rows[j].id
    }

    pub open spec fn has(self, id: int) -> bool {
        exists|i: int| 0 <= i < self.rows.len() && #[trigger] self.rows[i].id == id
    }

    /// The position of the row with the given id.
    pub open spec fn index_of(self, id: int) -> int {
        choose|i: int| 0 <= i < self.rows.len() && #[trigger] self.rows[i].id == id
    }

    /// Whether an insert can still be given an id.
    pub open spec fn can_insert(self) -> bool {
        self.next_id < i32::MAX
    }

    /// The row an insert of `email` and `password` creates.
    pub open spec fn inserted_row(self, email: Seq<char>, password: Seq<char>) -> UserRow {
        UserRow { id: self.next_id, email, password }
    }

    pub open spec fn insert(self, email: Seq<char>, password: Seq<char>) -> StoreModel {
        StoreModel {
            rows: self.rows.push(self.inserted_row(email, password)),
            next_id: self.next_id + 1,
        }
    }

    /// The row with the given id after its password is set.
    pub open spec fn updated_row(self, id: int, password: Seq<char>) -> UserRow {
        UserRow { password, ..self.rows[self.index_of(id)] }
    }

    pub open spec fn update(self, id: int, password: Seq<char>) -> StoreModel {
        if self.has(id) {
            StoreModel {
                rows: self.rows.update(self.index_of(id), self.updated_row(id, password)),
                ..self
            }
        } else {
            self
        }
    }

    pub open spec fn delete(self, id: int) -> StoreModel {
        if self.has(id) {
            StoreModel { rows: self.rows.remove(self.index_of(id)), ..self }
        } else {
            self
        }
    }

    /// How many rows a delete of the given id affects.
    pub open spec fn delete_count(self, id: int) -> int {
        if self.has(id) { 1 } else { 0 }
    }
}

/// Why an insert failed.
#[derive(Clone, Copy, Debug, PartialEq, Eq, Structural)]
pub enum StoreError {
    /// Every id that an `i32` can hold has been given out.
    IdsExhausted,
}

/// The users table, held in memory.
pub struct UserStore {
    rows: Vec<UserProfile>,
    next_id: i32,
}

impl View for UserStore {
    type V = StoreModel;

    closed spec fn view(&self) -> StoreModel {
        StoreModel { rows: rows_of(self.rows@), next_id: self.next_id as int }
    }
}

impl UserStore {
    pub open spec fn wf(&self) -> bool {
        self@.wf()
    }

    /// An empty table whose first insert receives id 1.
    pub fn new() -> (r: UserStore)
        ensures
            r.wf(),
            r@ == StoreModel::empty(),
    {
        let r = UserStore { rows: Vec::new(), next_id: 1 };
        assert(r@.rows =~= Seq::<UserRow>::empty());
        r
    }

    /// The position of the row with the given id, if there is one.
    fn find(&self, id: i32) -> (r: Option<usize>)
        requires
            self.wf(),
        ensures
            r is None <==> !self@.has(id as int),
            r matches Some(i) ==> i == self@.index_of(id as int) && i < self.rows@.len(),
    {
        let mut i: usize = 0;
        while i < self.rows.len()
            invariant
                self.wf(),
                i <= self.rows@.len(),
                forall|k: int| 0 <= k < i ==> (#[trigger] self@.rows[k]).id != id as int,
            decreases self.rows@.len() - i,
        {
            if self.rows[i].userid == id {
                assert(self@.rows[i as int].id == id as int);
                let ghost j = self@.index_of(id as int);
                assert(self@.rows[j].id == id as int);
                assert(j == i as int);
                return Some(i);
            }
            i = i + 1;
        }
        None
    }

    /// Every row, in the table's order.
    pub fn fetch_all(&self) -> (r: Vec<UserProfile>)
        ensures
            rows_of(r@) == self@.rows,
    {
        let mut out: Vec<UserProfile> = Vec::new();
        let mut i: usize = 0;
        while i < self.rows.len()
            invariant
                i <= self.rows@.len(),
                rows_of(out@) =~= rows_of(self.rows@.subrange(0, i as int)),
            decreases self.rows@.len() - i,
        {
            out.push(self.rows[i].copied());
            i = i + 1;
            assert(rows_of(self.rows@.subrange(0, i as int)) =~= rows_of(self.rows@.subrange(0, i - 1)).push(self.rows@[i - 1].row()));
        }
        assert(self.rows@.subrange(0, i as int) =~= self.rows@);
        out
    }

    /// Inserts a row with the next id and returns it.
    pub fn insert(&mut self, user: NewUser) -> (r: Result<UserProfile, StoreError>)
        requires
            old(self).wf(),
        ensures
            final(self).wf(),
            r is Ok <==> old(self)@.can_insert(),
            r matches Ok(u) ==> u.row() == old(self)@.inserted_row(user.email@, user.password@)
                && final(self)@ == old(self)@.insert(user.email@, user.password@),
            r is Err ==> final(self)@ == old(self)@ && r == Err::<UserProfile, StoreError>(StoreError::IdsExhausted),
    {
        if self.next_id == i32::MAX {
            return Err(StoreError::IdsExhausted);
        }
        let u = UserProfile { userid: self.next_id, email: user.email, password: user.password };
        let out = u.copied();
        self.rows.push(u);
        self.next_id = self.next_id + 1;
        assert(self@.rows =~= old(self)@.insert(user.email@, user.password@).rows);
        Ok(out)
    }

    /// Sets the password of the row with the given id and returns that row,
    /// or `None` where no row has it.
    pub fn update_password(&mut self, id: i32, password: String) -> (r: Option<UserProfile>)
        requires
            old(self).wf(),
        ensures
            final(self).wf(),
            final(self)@ == old(self)@.update(id as int, password@),
            r is Some <==> old(self)@.has(id as int),
            r matches Some(u) ==> u.row() == old(self)@.updated_row(id as int, password@),
    {
        match self.find(id) {
            None => None,
            Some(i) => {
                let ghost m = self@;
                self.rows[i].password = password;
                let out = self.rows[i].copied();
                assert(self@.rows =~= m.update(id as int, password@).rows);
                Some(out)
            },
        }
    }

    /// Deletes the row with the given id and returns how many rows went.
    pub fn delete(&mut self, id: i32) -> (r: u64)
        requires
            old(self).wf(),
        ensures
            final(self).wf(),
            final(self)@ == old(self)@.delete(id as int),
            r as int == old(self)@.delete_count(id as int),
    {
        match self.find(id) {
            None => 0,
            Some(i) => {
                let ghost m = self@;
                self.rows.remove(i);
                assert(self@.rows =~= m.rows.remove(i as int));
                1
            },
        }
    }
}

} // verus!
