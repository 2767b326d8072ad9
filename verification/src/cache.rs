//! The caches of reference data: the workspaces with their user rosters, and
//! the lists with their field definitions. A cache decides what has to be
//! fetched; the caller fetches it and hands it in.
use vstd::prelude::*;
use vstd::string::*;
use std::sync::Arc;
use crate::error::Error;
use crate::list::ListInfo;
use crate::types::{first_index, List, User, Workspace, ID};
use crate::user::{first_accepted, user_id_among, UserCache};
use crate::util::{decimal, is_uuid, parse_u64, to_decimal, unsigned_decimal, uuid_shape};

verus! {

/// Whether an identifier has the shape of one that the service can look up
/// by itself: a positive number in decimal, as an id is, or a uuid. A name
/// has not.
pub open spec fn fetchable_alone(identifier: Seq<char>) -> bool {
    (unsigned_decimal(identifier) matches Some(n) && n > 0) || uuid_shape(identifier)
}

/// Executable form of [`fetchable_alone`].
pub fn is_fetchable_alone(identifier: &str) -> (r: bool)
    ensures
        r == fetchable_alone(identifier@),
{
    match parse_u64(identifier) {
        Some(n) => n > 0 || is_uuid(identifier),
        None => is_uuid(identifier),
    }
}

/// A workspace together with the cache of its users. The workspace is one
/// instance, shared by all who hold it and never changed.
#[derive(Debug)]
pub struct WorkspaceData {
    workspace: Arc<Workspace>,
    user_cache: UserCache,
}

impl WorkspaceData {
    /// The workspace.
    pub closed spec fn workspace_of(&self) -> Workspace {
        *self.workspace
    }

    /// The users of the workspace, as last fetched; none before the first fetch.
    pub closed spec fn roster(&self) -> Seq<User> {
        self.user_cache@
    }

    /// A workspace whose users are still to be fetched.
    pub fn new(w: Workspace) -> (r: Self)
        ensures
            r.workspace_of() == w,
            r.roster() == Seq::<User>::empty(),
    {
        Self { workspace: Arc::new(w), user_cache: UserCache::default() }
    }

    /// Returns the workspace: the one instance that the cache holds.
    pub fn workspace(&self) -> (r: &Arc<Workspace>)
        ensures
            **r == self.workspace_of(),
    {
        &self.workspace
    }

    /// Returns the cache of the users of the workspace.
    pub fn user_cache(&self) -> (r: &UserCache)
        ensures
            r@ == self.roster(),
    {
        &self.user_cache
    }

    /// Whether the users have to be fetched before the cache is read: it is
    /// empty, or a reload is forced.
    pub fn needs_users(&self, force_reload: bool) -> (r: bool)
        ensures
            r == (self.roster().len() == 0 || force_reload),
    {
        self.user_cache.is_empty() || force_reload
    }

    /// Replaces the users of the workspace, all at once, by those fetched.
    pub fn store_users(&mut self, users: Vec<User>)
        ensures
            final(self).roster() == users@,
            final(self).workspace_of() == old(self).workspace_of(),
    {
        self.user_cache.replace_all(users)
    }

    /// Returns list of users in workspace
    pub fn users(&self) -> (r: &Vec<User>)
        ensures
            r@ == self.roster(),
    {
        self.user_cache.users()
    }

    /// Finds the id of a user of the workspace by display name, full name or
    /// uuid; names match whatever the case of their letters, a uuid letter
    /// for letter.
    pub fn get_user_id(&self, name: &str) -> (r: Option<ID>)
        ensures
            r == user_id_among(self.roster(), name@),
    {
        self.user_cache.get_user_id(name)
    }

    /// Find first user matching predicate
    pub fn find_user<P>(&self, predicate: P) -> (r: Option<&User>) where P: Fn(&User) -> bool
        requires
            forall|u: &User| #[trigger] predicate.requires((u,)),
        ensures
            match r {
                Some(u) => exists|i: int| #[trigger]
                    first_accepted(self.roster(), predicate, i) && *u == self.roster()[i],
                None => forall|j: int|
                    0 <= j < self.roster().len() ==> predicate.ensures(
                        (&#[trigger] self.roster()[j],),
                        false,
                    ),
            },
    {
        let r = self.user_cache.find_user(predicate);
        proof {
            if let Some(u) = r {
                let i = choose|i: int| #[trigger]
                    first_accepted(self.user_cache@, predicate, i) && *u == self.user_cache@[i];
                assert(first_accepted(self.roster(), predicate, i));
            }
        }
        r
    }
}

/// The test of whether `identifier` names a workspace.
pub open spec fn names_workspace(identifier: Seq<char>) -> spec_fn(Workspace) -> bool {
    |w: Workspace| w.named_by(identifier)
}

/// The test of whether a workspace has the id `ws_id`.
pub open spec fn numbered(ws_id: ID) -> spec_fn(Workspace) -> bool {
    |w: Workspace| w.id == ws_id
}

/// The position of the first workspace that `identifier` names, or the
/// number of workspaces if it names none.
pub open spec fn position_named(workspaces: Seq<Workspace>, identifier: Seq<char>) -> int {
    first_index(workspaces, names_workspace(identifier), 0)
}

/// The position of the first workspace with the id `ws_id`, or the number of
/// workspaces if none has it.
pub open spec fn position_numbered(workspaces: Seq<Workspace>, ws_id: ID) -> int {
    first_index(workspaces, numbered(ws_id), 0)
}

/// What resolving a workspace takes.
pub ghost enum Resolution {
    /// The cache holds the workspace, at this position: nothing is fetched.
    Hit(int),
    /// The workspace is fetched by itself, under the identifier.
    FetchOne,
    /// All workspaces are fetched, and the identifier is looked for among them.
    FetchAll,
}

/// What resolving `identifier` takes of a cache that holds `workspaces`: the
/// first workspace that it names; else one fetch of that workspace, where the
/// identifier has the shape for it; else a fetch of all.
pub open spec fn resolution(workspaces: Seq<Workspace>, identifier: Seq<char>) -> Resolution {
    let k = position_named(workspaces, identifier);
    if k < workspaces.len() {
        Resolution::Hit(k)
    } else if fetchable_alone(identifier) {
        Resolution::FetchOne
    } else {
        Resolution::FetchAll
    }
}

/// What the caller of a workspace cache does next.
#[derive(Debug)]
pub enum WorkspacePlan<'a> {
    /// Nothing: here is the workspace, the instance that the cache holds.
    Cached(&'a Arc<Workspace>),
    /// Fetch the one workspace under the identifier, and insert it.
    FetchOne,
    /// Fetch all workspaces, insert them, and look again.
    FetchAll,
}

/// The message of the error for an identifier that names no cached workspace.
pub open spec fn invalid_workspace_message(identifier: Seq<char>) -> Seq<char> {
    "Invalid workspace_id '"@ + identifier + "'"@
}

/// The message of the error for an identifier that names no workspace at all.
pub open spec fn workspace_not_found_message(identifier: Seq<char>) -> Seq<char> {
    "Workspace '"@ + identifier + "' not found"@
}

/// The message of the error for users asked of a workspace that is not cached.
pub open spec fn unknown_workspace_message(workspace_id: ID) -> Seq<char> {
    "get_workspace_users: invalid workspace_id '"@ + decimal(workspace_id as nat) + "'"@
}

/// The error for users asked of a workspace that is not cached.
fn unknown_workspace_error(workspace_id: ID) -> (e: Error)
    ensures
        e matches Error::NotFound(m) && m@ == unknown_workspace_message(workspace_id),
{
    let digits = to_decimal(workspace_id);
    let mut msg = String::from_str("get_workspace_users: invalid workspace_id '");
    msg.append(digits.as_str());
    msg.append("'");
    Error::NotFound(msg)
}

/// Cache of workspaces, in the order in which they were fetched.
#[derive(Debug)]
pub struct WorkspaceCache {
    entries: Vec<WorkspaceData>,
}

impl WorkspaceCache {
    /// The cached workspaces, in the order in which they were fetched.
    pub closed spec fn workspaces(&self) -> Seq<Workspace> {
        Seq::new(self.entries@.len(), |i: int| self.entries@[i].workspace_of())
    }

    /// The rosters of the cached workspaces, in the same order.
    pub closed spec fn rosters(&self) -> Seq<Seq<User>> {
        Seq::new(self.entries@.len(), |i: int| self.entries@[i].roster())
    }

    /// An empty cache.
    pub fn new() -> (r: Self)
        ensures
            r.workspaces() == Seq::<Workspace>::empty(),
            r.rosters() == Seq::<Seq<User>>::empty(),
    {
        let r = WorkspaceCache { entries: Vec::new() };
        assert(r.workspaces() =~= Seq::<Workspace>::empty());
        assert(r.rosters() =~= Seq::<Seq<User>>::empty());
        r
    }

    /// Returns true if workspaces have been loaded
    pub fn have_workspaces(&self) -> (r: bool)
        ensures
            r == (self.workspaces().len() > 0),
    {
        !self.entries.is_empty()
    }

    /// Clears workspace cache
    pub fn clear_workspace_cache(&mut self)
        ensures
            final(self).workspaces() == Seq::<Workspace>::empty(),
            final(self).rosters() == Seq::<Seq<User>>::empty(),
    {
        self.entries.clear();
        assert(self.workspaces() =~= Seq::<Workspace>::empty());
        assert(self.rosters() =~= Seq::<Seq<User>>::empty());
    }

    /// The position of the first cached workspace that `ws_id` names.
    fn find_named(&self, ws_id: &str) -> (r: usize)
        ensures
            r == position_named(self.workspaces(), ws_id@),
            r <= self.entries@.len(),
    {
        let ghost p = names_workspace(ws_id@);
        let ghost all = self.workspaces();
        let mut i: usize = 0;
        while i < self.entries.len()
            invariant
                i <= self.entries@.len(),
                all == self.workspaces(),
                all.len() == self.entries@.len(),
                p == names_workspace(ws_id@),
                first_index(all, p, 0) == first_index(all, p, i as int),
            decreases self.entries@.len() - i,
        {
            assert(all[i as int] == self.entries@[i as int].workspace_of());
            assert(p(all[i as int]) == all[i as int].named_by(ws_id@));
            if self.entries[i].workspace().has_id(ws_id) {
                return i;
            }
            i += 1;
        }
        i
    }

    /// The position of the first cached workspace with the id `ws_id`.
    fn find_numbered(&self, ws_id: ID) -> (r: usize)
        ensures
            r == position_numbered(self.workspaces(), ws_id),
            r <= self.entries@.len(),
    {
        let ghost p = numbered(ws_id);
        let ghost all = self.workspaces();
        let mut i: usize = 0;
        while i < self.entries.len()
            invariant
                i <= self.entries@.len(),
                all == self.workspaces(),
                all.len() == self.entries@.len(),
                p == numbered(ws_id),
                first_index(all, p, 0) == first_index(all, p, i as int),
            decreases self.entries@.len() - i,
        {
            assert(all[i as int] == self.entries@[i as int].workspace_of());
            assert(p(all[i as int]) == (all[i as int].id == ws_id));
            if self.entries[i].workspace().id == ws_id {
                return i;
            }
            i += 1;
        }
        i
    }

    /// Returns the first cached workspace that `ws_id` names, by id, uuid,
    /// short id or name.
    pub fn get_cached_workspace_allid(&self, ws_id: &str) -> (r: Result<&WorkspaceData, Error>)
        ensures
            match r {
                Ok(wd) => {
                    let k = position_named(self.workspaces(), ws_id@);
                    k < self.workspaces().len() && wd.workspace_of() == self.workspaces()[k]
                        && wd.roster() == self.rosters()[k]
                },
                Err(e) => position_named(self.workspaces(), ws_id@) == self.workspaces().len() && (
                e matches Error::NotFound(m) && m@ == invalid_workspace_message(ws_id@)),
            },
    {
        let k = self.find_named(ws_id);
        if k < self.entries.len() {
            Ok(&self.entries[k])
        } else {
            let mut msg = String::from_str("Invalid workspace_id '");
            msg.append(ws_id);
            msg.append("'");
            Err(Error::NotFound(msg))
        }
    }

    /// Returns the first cached workspace with the id `ws_id`.
    pub fn get_cached_workspace(&self, ws_id: ID) -> (r: Result<&WorkspaceData, Error>)
        ensures
            match r {
                Ok(wd) => {
                    let k = position_numbered(self.workspaces(), ws_id);
                    k < self.workspaces().len() && wd.workspace_of() == self.workspaces()[k]
                        && wd.roster() == self.rosters()[k]
                },
                Err(e) => position_numbered(self.workspaces(), ws_id) == self.workspaces().len() && (
                e matches Error::NotFound(m) && m@ == invalid_workspace_message(decimal(ws_id as nat))),
            },
    {
        let k = self.find_numbered(ws_id);
        if k < self.entries.len() {
            Ok(&self.entries[k])
        } else {
            let digits = to_decimal(ws_id);
            let mut msg = String::from_str("Invalid workspace_id '");
            msg.append(digits.as_str());
            msg.append("'");
            Err(Error::NotFound(msg))
        }
    }

    /// Decides what resolving the workspace `ws_id` takes. `ws_id` may be
    /// id, uuid, short id or name. A cached workspace is returned as it is;
    /// an id or a uuid that is not cached asks for a fetch of that workspace;
    /// anything else asks for a fetch of all, as the service looks none up by
    /// name.
    pub fn plan_workspace(&self, ws_id: &str) -> (r: WorkspacePlan<'_>)
        ensures
            match r {
                WorkspacePlan::Cached(w) => resolution(self.workspaces(), ws_id@) matches Resolution::Hit(k)
                    && **w == self.workspaces()[k],
                WorkspacePlan::FetchOne => resolution(self.workspaces(), ws_id@) is FetchOne,
                WorkspacePlan::FetchAll => resolution(self.workspaces(), ws_id@) is FetchAll,
            },
    {
        let k = self.find_named(ws_id);
        if k < self.entries.len() {
            WorkspacePlan::Cached(self.entries[k].workspace())
        } else if is_fetchable_alone(ws_id) {
            WorkspacePlan::FetchOne
        } else {
            WorkspacePlan::FetchAll
        }
    }

    /// Adds a fetched workspace at the end of the cache, its users still to
    /// be fetched, and returns the instance that the cache now holds.
    pub fn insert(&mut self, w: Workspace) -> (r: &Arc<Workspace>)
        ensures
            final(self).workspaces() == old(self).workspaces().push(w),
            final(self).rosters() == old(self).rosters().push(Seq::<User>::empty()),
            **r == w,
    {
        self.entries.push(WorkspaceData::new(w));
        assert(self.workspaces() =~= old(self).workspaces().push(w));
        assert(self.rosters() =~= old(self).rosters().push(Seq::<User>::empty()));
        self.entries[self.entries.len() - 1].workspace()
    }

    /// Adds the fetched workspaces at the end of the cache, in their order.
    pub fn insert_all(&mut self, ws_list: Vec<Workspace>)
        ensures
            final(self).workspaces() == old(self).workspaces() + ws_list@,
            final(self).rosters() == old(self).rosters() + Seq::new(
                ws_list@.len(),
                |i: int| Seq::<User>::empty(),
            ),
    {
        let ghost added = ws_list@;
        let mut rest = ws_list;
        let mut batch: Vec<WorkspaceData> = Vec::new();
        while rest.len() > 0
            invariant
                batch@.len() + rest@.len() == added.len(),
                forall|i: int| 0 <= i < rest@.len() ==> rest@[i] == added[i],
                forall|i: int|
                    0 <= i < batch@.len() ==> (#[trigger] batch@[i]).workspace_of() == added[added.len()
                        - 1 - i] && batch@[i].roster() == Seq::<User>::empty(),
            decreases rest@.len(),
        {
            let w = rest.pop().unwrap();
            batch.push(WorkspaceData::new(w));
        }
        while batch.len() > 0
            invariant
                batch@.len() <= added.len(),
                self.entries@.len() == old(self).entries@.len() + added.len() - batch@.len(),
                forall|i: int| 0 <= i < old(self).entries@.len() ==> self.entries@[i] == old(self).entries@[i],
                forall|i: int|
                    0 <= i < batch@.len() ==> (#[trigger] batch@[i]).workspace_of() == added[added.len()
                        - 1 - i] && batch@[i].roster() == Seq::<User>::empty(),
                forall|i: int|
                    old(self).entries@.len() <= i < self.entries@.len() ==> (#[trigger] self.entries@[i]).workspace_of()
                        == added[i - old(self).entries@.len()] && self.entries@[i].roster() == Seq::<
                        User,
                    >::empty(),
            decreases batch@.len(),
        {
            let d = batch.pop().unwrap();
            self.entries.push(d);
        }
        assert(self.workspaces() =~= old(self).workspaces() + added);
        assert(self.rosters() =~= old(self).rosters() + Seq::new(
            added.len(),
            |i: int| Seq::<User>::empty(),
        ));
    }

    /// Looks for the workspace `ws_id` once all workspaces are in the cache:
    /// the first that it names, or the error that there is none.
    pub fn find_workspace(&self, ws_id: &str) -> (r: Result<&Arc<Workspace>, Error>)
        ensures
            match r {
                Ok(w) => resolution(self.workspaces(), ws_id@) matches Resolution::Hit(k) && **w
                    == self.workspaces()[k],
                Err(e) => !(resolution(self.workspaces(), ws_id@) is Hit) && (e matches Error::NotFound(m)
                    && m@ == workspace_not_found_message(ws_id@)),
            },
    {
        let k = self.find_named(ws_id);
        if k < self.entries.len() {
            Ok(self.entries[k].workspace())
        } else {
            let mut msg = String::from_str("Workspace '");
            msg.append(ws_id);
            msg.append("' not found");
            Err(Error::NotFound(msg))
        }
    }

    /// Whether the users of the workspace with the id `workspace_id` have to
    /// be fetched before its roster is read: the roster is empty, or a
    /// reload is forced. The workspace has to be cached.
    pub fn needs_users(&self, workspace_id: ID, force_reload: bool) -> (r: Result<bool, Error>)
        ensures
            match r {
                Ok(fetch) => {
                    let k = position_numbered(self.workspaces(), workspace_id);
                    k < self.workspaces().len() && fetch == (self.rosters()[k].len() == 0
                        || force_reload)
                },
                Err(e) => position_numbered(self.workspaces(), workspace_id)
                    == self.workspaces().len() && (e matches Error::NotFound(m) && m@
                    == unknown_workspace_message(workspace_id)),
            },
    {
        let k = self.find_numbered(workspace_id);
        if k < self.entries.len() {
            Ok(self.entries[k].needs_users(force_reload))
        } else {
            Err(unknown_workspace_error(workspace_id))
        }
    }

    /// Replaces the roster of the workspace with the id `workspace_id` by the
    /// users fetched, all at once. Nothing else changes.
    pub fn store_users(&mut self, workspace_id: ID, users: Vec<User>) -> (r: Result<(), Error>)
        ensures
            final(self).workspaces() == old(self).workspaces(),
            match r {
                Ok(()) => {
                    let k = position_numbered(old(self).workspaces(), workspace_id);
                    k < old(self).workspaces().len() && final(self).rosters() == old(
                        self,
                    ).rosters().update(k, users@)
                },
                Err(e) => position_numbered(old(self).workspaces(), workspace_id) == old(
                    self,
                ).workspaces().len() && final(self).rosters() == old(self).rosters() && (
                e matches Error::NotFound(m) && m@ == unknown_workspace_message(workspace_id)),
            },
    {
        let k = self.find_numbered(workspace_id);
        if k < self.entries.len() {
            let mut entry = self.entries.remove(k);
            entry.store_users(users);
            self.entries.insert(k, entry);
            assert(self.workspaces() =~= old(self).workspaces());
            assert(self.rosters() =~= old(self).rosters().update(k as int, users@));
            Ok(())
        } else {
            Err(unknown_workspace_error(workspace_id))
        }
    }

    /// Returns the users of the workspace with the id `workspace_id`, as last fetched.
    pub fn get_users(&self, workspace_id: ID) -> (r: Result<&Vec<User>, Error>)
        ensures
            match r {
                Ok(users) => {
                    let k = position_numbered(self.workspaces(), workspace_id);
                    k < self.workspaces().len() && users@ == self.rosters()[k]
                },
                Err(e) => position_numbered(self.workspaces(), workspace_id)
                    == self.workspaces().len() && (e matches Error::NotFound(m) && m@
                    == unknown_workspace_message(workspace_id)),
            },
    {
        let k = self.find_numbered(workspace_id);
        if k < self.entries.len() {
            Ok(self.entries[k].users())
        } else {
            Err(unknown_workspace_error(workspace_id))
        }
    }

    /// Finds the user id for the name, among the users of the workspace with
    /// the id `workspace_id`. The name can be display name, full name, or
    /// uuid; a name matches whatever the case of its letters, a uuid letter
    /// for letter.
    pub fn get_user_id(&self, workspace_id: ID, name: &str) -> (r: Result<Option<ID>, Error>)
        ensures
            match r {
                Ok(id) => {
                    let k = position_numbered(self.workspaces(), workspace_id);
                    k < self.workspaces().len() && id == user_id_among(self.rosters()[k], name@)
                },
                Err(e) => position_numbered(self.workspaces(), workspace_id)
                    == self.workspaces().len() && (e matches Error::NotFound(m) && m@
                    == unknown_workspace_message(workspace_id)),
            },
    {
        let k = self.find_numbered(workspace_id);
        if k < self.entries.len() {
            Ok(self.entries[k].get_user_id(name))
        } else {
            Err(unknown_workspace_error(workspace_id))
        }
    }

    /// Returns all cached workspaces, in the order in which they were fetched.
    pub fn all_workspaces(&self) -> (r: Vec<&Arc<Workspace>>)
        ensures
            r@.len() == self.workspaces().len(),
            forall|i: int| 0 <= i < r@.len() ==> **#[trigger] r@[i] == self.workspaces()[i],
    {
        let mut out: Vec<&Arc<Workspace>> = Vec::new();
        let mut i: usize = 0;
        while i < self.entries.len()
            invariant
                i <= self.entries@.len(),
                out@.len() == i,
                forall|k: int| 0 <= k < i ==> **#[trigger] out@[k] == self.entries@[k].workspace_of(),
            decreases self.entries@.len() - i,
        {
            out.push(self.entries[i].workspace());
            i += 1;
        }
        out
    }
}

/// The test of whether `identifier` names a list.
pub open spec fn names_list(identifier: Seq<char>) -> spec_fn(List) -> bool {
    |l: List| l.named_by(identifier)
}

/// The test of whether `identifier` names the list of a schema.
pub open spec fn names_schema(identifier: Seq<char>) -> spec_fn(ListInfo) -> bool {
    |li: ListInfo| li.summary().named_by(identifier)
}

/// The message of the error for an identifier that names no cached list.
pub open spec fn invalid_list_message(identifier: Seq<char>) -> Seq<char> {
    "Invalid list '"@ + identifier + "'"@
}

/// The message of the error for an identifier that names no list of a workspace.
pub open spec fn list_not_in_workspace_message(
    identifier: Seq<char>,
    workspace_name: Seq<char>,
    workspace_id: ID,
) -> Seq<char> {
    "get_list_info: invalid list '"@ + identifier + "' in workspace '"@ + workspace_name + "' ("@
        + decimal(workspace_id as nat) + ")"@
}

/// Finds, among the lists of a workspace, the first that `list_allid` names
/// by id, uuid, short id or name. `workspace_id` is the id under which the
/// workspace was asked for, for the error message.
pub fn find_list<'a>(workspace: &'a Workspace, list_allid: &str, workspace_id: ID) -> (r: Result<&'a List, Error>)
    ensures
        match r {
            Ok(l) => {
                let k = first_index(workspace.lists@, names_list(list_allid@), 0);
                k < workspace.lists@.len() && *l == workspace.lists@[k]
            },
            Err(e) => first_index(workspace.lists@, names_list(list_allid@), 0)
                == workspace.lists@.len() && (e matches Error::NotFound(m) && m@
                == list_not_in_workspace_message(list_allid@, workspace.name@, workspace_id)),
        },
{
    let ghost p = names_list(list_allid@);
    let mut i: usize = 0;
    while i < workspace.lists.len()
        invariant
            i <= workspace.lists@.len(),
            p == names_list(list_allid@),
            first_index(workspace.lists@, p, 0) == first_index(workspace.lists@, p, i as int),
        decreases workspace.lists@.len() - i,
    {
        assert(p(workspace.lists@[i as int]) == workspace.lists@[i as int].named_by(list_allid@));
        if workspace.lists[i].has_id(list_allid) {
            return Ok(&workspace.lists[i]);
        }
        i += 1;
    }
    let digits = to_decimal(workspace_id);
    let mut msg = String::from_str("get_list_info: invalid list '");
    msg.append(list_allid);
    msg.append("' in workspace '");
    msg.append(workspace.name.as_str());
    msg.append("' (");
    msg.append(digits.as_str());
    msg.append(")");
    Err(Error::NotFound(msg))
}

/// Cache of lists with their field definitions, in the order in which they
/// were fetched.
#[derive(Debug)]
pub struct ListCache {
    lists: Vec<Arc<ListInfo>>,
}

impl View for ListCache {
    type V = Seq<ListInfo>;

    closed spec fn view(&self) -> Seq<ListInfo> {
        Seq::new(self.lists@.len(), |i: int| *self.lists@[i])
    }
}

impl ListCache {
    /// An empty cache.
    pub fn new() -> (r: Self)
        ensures
            r@ == Seq::<ListInfo>::empty(),
    {
        ListCache { lists: Vec::new() }
    }

    /// Clears ListInfo cache. Note: ListInfo cache contains field definitions, not items.
    pub fn clear_list_cache(&mut self)
        ensures
            final(self)@ == Seq::<ListInfo>::empty(),
    {
        self.lists.clear();
    }

    /// Returns the first cached list that `list_allid` names, by id, uuid,
    /// short id or name.
    pub fn get_cached_list(&self, list_allid: &str) -> (r: Result<&Arc<ListInfo>, Error>)
        ensures
            match r {
                Ok(li) => {
                    let k = first_index(self@, names_schema(list_allid@), 0);
                    k < self@.len() && **li == self@[k]
                },
                Err(e) => first_index(self@, names_schema(list_allid@), 0) == self@.len() && (
                e matches Error::NotFound(m) && m@ == invalid_list_message(list_allid@)),
            },
    {
        let ghost p = names_schema(list_allid@);
        let ghost all = self@;
        let mut i: usize = 0;
        while i < self.lists.len()
            invariant
                i <= self.lists@.len(),
                all == self@,
                all.len() == self.lists@.len(),
                p == names_schema(list_allid@),
                first_index(all, p, 0) == first_index(all, p, i as int),
            decreases self.lists@.len() - i,
        {
            assert(all[i as int] == *self.lists@[i as int]);
            assert(p(all[i as int]) == all[i as int].summary().named_by(list_allid@));
            if self.lists[i].has_id(list_allid) {
                return Ok(&self.lists[i]);
            }
            i += 1;
        }
        let mut msg = String::from_str("Invalid list '");
        msg.append(list_allid);
        msg.append("'");
        Err(Error::NotFound(msg))
    }

    /// Adds a list with its fetched field definitions at the end of the
    /// cache, and returns the instance that the cache now holds.
    pub fn insert(&mut self, info: ListInfo) -> (r: &Arc<ListInfo>)
        ensures
            final(self)@ == old(self)@.push(info),
            **r == info,
    {
        self.lists.push(Arc::new(info));
        assert(self@ =~= old(self)@.push(info));
        &self.lists[self.lists.len() - 1]
    }
}

/// What the caller of the caches does next to get a list with its fields.
#[derive(Debug)]
pub enum ListPlan<'a> {
    /// Nothing: here is the list with its fields, the instance that the
    /// cache holds.
    Cached(&'a Arc<ListInfo>),
    /// Fetch the field definitions of this list, put them together with it,
    /// and insert the result.
    FetchFields(&'a List),
    /// Resolve the workspace under this identifier, its id in decimal, then
    /// look for the list among its lists.
    FetchWorkspace(String),
}

/// Decides what getting the list `list_allid` of the workspace with the id
/// `workspace_id`, with its field definitions, takes. A cached list is
/// returned as it is, whatever its workspace. Else the list is looked for in
/// the workspace, if that is cached: its fields are to be fetched, or it is
/// not there, which is an error. Else the workspace is to be resolved first.
pub fn plan_list<'a>(lists: &'a ListCache, workspaces: &'a WorkspaceCache, workspace_id: ID, list_allid: &str) -> (r: Result<ListPlan<'a>, Error>)
    ensures
        ({
            let hit = first_index(lists@, names_schema(list_allid@), 0);
            let at = position_numbered(workspaces.workspaces(), workspace_id);
            if hit < lists@.len() {
                r matches Ok(ListPlan::Cached(li)) && **li == lists@[hit]
            } else if at < workspaces.workspaces().len() {
                let w = workspaces.workspaces()[at];
                let k = first_index(w.lists@, names_list(list_allid@), 0);
                if k < w.lists@.len() {
                    r matches Ok(ListPlan::FetchFields(l)) && *l == w.lists@[k]
                } else {
                    r matches Err(Error::NotFound(m)) && m@ == list_not_in_workspace_message(
                        list_allid@,
                        w.name@,
                        workspace_id,
                    )
                }
            } else {
                r matches Ok(ListPlan::FetchWorkspace(text)) && text@ == decimal(workspace_id as nat)
            }
        }),
{
    if let Ok(li) = lists.get_cached_list(list_allid) {
        return Ok(ListPlan::Cached(li));
    }
    match workspaces.get_cached_workspace(workspace_id) {
        Ok(wd) => match find_list(wd.workspace(), list_allid, workspace_id) {
            Ok(list) => Ok(ListPlan::FetchFields(list)),
            Err(e) => Err(e),
        },
        Err(_) => Ok(ListPlan::FetchWorkspace(to_decimal(workspace_id))),
    }
}

/// The address of the service.
pub const DEFAULT_ENDPOINT: &'static str = "https://zenkit.com/api/v1";

/// Initialization parameters for the client
#[derive(Debug)]
pub struct ApiConfig {
    /// Secret API Token
    pub token: String,
    /// HTTPS endpoint. Defaults to the address of the service
    pub endpoint: String,
}

impl ApiConfig {
    /// The parameters for the service at its own address, with this token.
    pub fn with_token(token: String) -> (r: Self)
        ensures
            r.token == token,
            r.endpoint@ == DEFAULT_ENDPOINT@,
    {
        Self { endpoint: String::from_str(DEFAULT_ENDPOINT), token }
    }
}

} // verus!
