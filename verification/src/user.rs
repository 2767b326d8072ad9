//! The users of one workspace, as last fetched.
use vstd::prelude::*;
use crate::types::{first_index, User, ID};
use crate::util::str_eq;

verus! {

/// The lower-case form of a text, as `str::to_lowercase` gives it.
pub uninterp spec fn lowercase(s: Seq<char>) -> Seq<char>;

/// `str::to_lowercase`: the lower-case form of `s`, a function of `s` alone.
#[verifier::external_body]
pub(crate) fn to_lowercase(s: &str) -> (r: String)
    ensures
        r@ == lowercase(s@),
{
    s.to_lowercase()
}

impl User {
    /// Whether a text names this user, given the text as it was asked and
    /// its lower-case form: the lower-case form is that of the display name
    /// or of the full name, or the uuid is the text as it was asked.
    pub open spec fn named_as(&self, name: Seq<char>, lc_name: Seq<char>) -> bool {
        lowercase(self.display_name@) == lc_name || lowercase(self.full_name@) == lc_name
            || self.uuid@ == name
    }

    /// Whether `name` names this user: it is the display name or the full
    /// name, whatever the case of the letters, or it is the uuid, letter for
    /// letter.
    pub open spec fn named_by(&self, name: Seq<char>) -> bool {
        self.named_as(name, lowercase(name))
    }

    /// Whether a text names this user, given the text as it was asked and
    /// its lower-case form.
    pub fn has_lowercase_name(&self, lc_name: &str, name: &str) -> (r: bool)
        ensures
            r == self.named_as(name@, lc_name@),
    {
        let display = to_lowercase(self.display_name.as_str());
        if str_eq(display.as_str(), lc_name) {
            return true;
        }
        let full = to_lowercase(self.full_name.as_str());
        str_eq(full.as_str(), lc_name) || str_eq(self.uuid.as_str(), name)
    }
}

/// The test of whether `name` names a user.
pub open spec fn names_user(name: Seq<char>) -> spec_fn(User) -> bool {
    |u: User| u.named_by(name)
}

/// The id of the first of `users` that `name` names, if it names any.
pub open spec fn user_id_among(users: Seq<User>, name: Seq<char>) -> Option<ID> {
    let k = first_index(users, names_user(name), 0);
    if k < users.len() {
        Some(users[k].id)
    } else {
        None
    }
}

/// Whether `predicate` has accepted the user at position `i` and refused all
/// those before it.
pub open spec fn first_accepted<P: Fn(&User) -> bool>(users: Seq<User>, predicate: P, i: int) -> bool {
    &&& 0 <= i < users.len()
    &&& predicate.ensures((&users[i],), true)
    &&& forall|j: int| 0 <= j < i ==> predicate.ensures((&#[trigger] users[j],), false)
}

/// Cached array of users
#[derive(Debug, Clone)]
pub struct UserCache {
    users: Vec<User>,
}

impl View for UserCache {
    type V = Seq<User>;

    closed spec fn view(&self) -> Seq<User> {
        self.users@
    }
}

impl Default for UserCache {
    fn default() -> (r: Self)
        ensures
            r@ == Seq::<User>::empty(),
    {
        UserCache { users: Vec::new() }
    }
}

impl UserCache {
    /// Replaces the whole roster by `users`.
    pub fn replace_all(&mut self, users: Vec<User>)
        ensures
            final(self)@ == users@,
    {
        self.users = users
    }

    /// Returns true if the cache is empty
    pub fn is_empty(&self) -> (r: bool)
        ensures
            r == (self@.len() == 0),
    {
        self.users.is_empty()
    }

    /// Returns the users of the workspace, in the order in which they were fetched.
    /// To search for one user, `find_user` avoids walking them twice.
    pub fn users(&self) -> (r: &Vec<User>)
        ensures
            r@ == self@,
    {
        &self.users
    }

    /// Finds the first user for which the predicate returns true.
    pub fn find_user<P>(&self, predicate: P) -> (r: Option<&User>) where P: Fn(&User) -> bool
        requires
            forall|u: &User| #[trigger] predicate.requires((u,)),
        ensures
            match r {
                Some(u) => exists|i: int| #[trigger] first_accepted(self@, predicate, i) && *u == self@[i],
                None => forall|j: int|
                    0 <= j < self@.len() ==> predicate.ensures((&#[trigger] self@[j],), false),
            },
    {
        let mut i: usize = 0;
        while i < self.users.len()
            invariant
                i <= self.users@.len(),
                forall|u: &User| #[trigger] predicate.requires((u,)),
                forall|j: int| 0 <= j < i ==> predicate.ensures((&#[trigger] self.users@[j],), false),
            decreases self.users@.len() - i,
        {
            let u = &self.users[i];
            if predicate(u) {
                assert(first_accepted(self@, predicate, i as int));
                return Some(u);
            }
            i += 1;
        }
        None
    }

    /// Finds the id of a user. The parameter may be the display name, the full
    /// name or the uuid; names match whatever the case of their letters, a
    /// uuid letter for letter.
    pub fn get_user_id(&self, name: &str) -> (r: Option<ID>)
        ensures
            r == user_id_among(self@, name@),
    {
        let lc_name = to_lowercase(name);
        let ghost p = names_user(name@);
        let mut i: usize = 0;
        while i < self.users.len()
            invariant
                i <= self.users@.len(),
                p == names_user(name@),
                lc_name@ == lowercase(name@),
                first_index(self.users@, p, 0) == first_index(self.users@, p, i as int),
            decreases self.users@.len() - i,
        {
            let u = &self.users[i];
            assert(p(self.users@[i as int]) == self.users@[i as int].named_by(name@));
            if u.has_lowercase_name(lc_name.as_str(), name) {
                return Some(u.id);
            }
            i += 1;
        }
        None
    }
}

} // verus!
