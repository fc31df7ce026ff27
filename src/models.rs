use vstd::prelude::*;

verus! {

/// The closed set of genders a user record may carry.
#[derive(Debug, Clone, Copy, PartialEq, Eq, Structural)]
pub enum Gender {
    Female,
    Male,
    Unspecified,
}

/// An identity record. `first_name` is present only if it was supplied.
#[derive(Debug, Clone)]
pub struct User {
    pub id: u64,
    pub first_name: Option<String>,
    pub last_name: String,
    pub gender: Gender,
}

/// Copies an optional string, keeping absence as absence.
fn copy_opt_string(s: &Option<String>) -> (r: Option<String>)
    ensures
        r == *s,
{
    match s {
        Some(v) => Some(v.clone()),
        None => None,
    }
}

impl User {
    /// A field-for-field copy of this record.
    pub fn duplicate(&self) -> (r: User)
        ensures
            r == *self,
    {
        User {
            id: self.id,
            first_name: copy_opt_string(&self.first_name),
            last_name: self.last_name.clone(),
            gender: self.gender,
        }
    }
}

/// The ordered collection of user records: insertion order is kept and
/// identifiers need not be unique.
pub struct UserStore {
    users: Vec<User>,
}

/// The contents of a store after appending `added`, one record after another,
/// to a store that held `start`.
pub open spec fn append_all(start: Seq<User>, added: Seq<User>) -> Seq<User>
    decreases added.len(),
{
    if added.len() == 0 {
        start
    } else {
        append_all(start, added.drop_last()).push(added.last())
    }
}

impl View for UserStore {
    type V = Seq<User>;

    closed spec fn view(&self) -> Seq<User> {
        self.users@
    }
}

/// A new, empty store.
pub fn init_state() -> (r: UserStore)
    ensures
        r@ == Seq::<User>::empty(),
{
    UserStore { users: Vec::new() }
}

impl UserStore {
    /// A snapshot copy of every record, in insertion order.
    pub fn list(&self) -> (r: Vec<User>)
        ensures
            r@ == self@,
    {
        let mut out: Vec<User> = Vec::new();
        let mut i: usize = 0;
        while i < self.users.len()
            invariant
                i <= self.users@.len(),
                out@ == self.users@.subrange(0, i as int),
            decreases self.users@.len() - i,
        {
            out.push(self.users[i].duplicate());
            i = i + 1;
            assert(out@ =~= self.users@.subrange(0, i as int));
        }
        assert(out@ =~= self.users@);
        out
    }

    /// Appends one record at the tail.
    pub fn append(&mut self, user: User)
        ensures
            final(self)@ == old(self)@.push(user),
    {
        self.users.push(user);
    }

    /// The number of records held.
    pub fn len(&self) -> (r: usize)
        ensures
            r == self@.len(),
    {
        self.users.len()
    }
}

/// Appending never disturbs what was already stored: a snapshot taken before
/// any run of appends is exactly the leading part of the store afterwards, and
/// the appended records follow it in the order they were appended.
pub proof fn lemma_snapshot_is_prefix(snapshot: Seq<User>, added: Seq<User>)
    ensures
        append_all(snapshot, added).len() == snapshot.len() + added.len(),
        append_all(snapshot, added) == snapshot + added,
        append_all(snapshot, added).subrange(0, snapshot.len() as int) == snapshot,
    decreases added.len(),
{
    if added.len() == 0 {
        assert(snapshot + added =~= snapshot);
    } else {
        lemma_snapshot_is_prefix(snapshot, added.drop_last());
        assert(snapshot + added =~= (snapshot + added.drop_last()).push(added.last()));
    }
    assert(append_all(snapshot, added).subrange(0, snapshot.len() as int) =~= snapshot);
}

} // verus!
