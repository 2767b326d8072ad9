use zenkit::cache::{
    find_list, is_fetchable_alone, plan_list, ApiConfig, ListCache, ListPlan, WorkspaceCache,
    WorkspaceData, WorkspacePlan, DEFAULT_ENDPOINT,
};
use zenkit::types::{DateTime, List, ListInfo, User, Workspace};
use std::sync::Arc;
use zenkit::Error;

fn list(id: u64, name: &str, workspace_id: u64) -> List {
    List {
        id,
        short_id: format!("l{}", id),
        uuid: format!("cccccccc-0000-0000-0000-{:012}", id),
        name: name.to_string(),
        item_name: None,
        item_name_plural: None,
        is_building: false,
        is_migrating: false,
        sort_order: None,
        description: String::new(),
        created_at: DateTime { secs: 1577836800, nanos: 0 },
        updated_at: DateTime { secs: 1577836800, nanos: 0 },
        deprecated_at: None,
        origin_created_at: None,
        origin_updated_at: None,
        origin_deprecated_at: None,
        formula_tsort_order: None,
        list_file_policy: None,
        origin_provider: None,
        origin_data: None,
        default_view_modus: 0,
        background_id: None,
        icon_color: None,
        icon_background_color: None,
        workspace_id,
        visibility: 0,
        created_by: 1,
    }
}

fn workspace(id: u64, name: &str, lists: Vec<List>) -> Workspace {
    Workspace {
        id,
        short_id: format!("w{}", id),
        uuid: format!("dddddddd-0000-0000-0000-{:012}", id),
        name: name.to_string(),
        description: None,
        is_default: false,
        created_at: DateTime { secs: 1577836800, nanos: 0 },
        updated_at: DateTime { secs: 1577836800, nanos: 0 },
        deprecated_at: None,
        background_id: None,
        created_by: 1,
        lists,
    }
}

fn user(id: u64, display: &str) -> User {
    User {
        id,
        short_id: format!("u{}", id),
        uuid: format!("u-{}", id),
        display_name: display.to_string(),
        full_name: display.to_string(),
        initials: String::new(),
        user_name: display.to_string(),
        background_id: None,
        api_key: None,
        image_link: None,
        is_image_preferred: false,
        anonymous: None,
        locale: None,
        timezone: None,
        is_super_admin: None,
        registered_at: None,
        trello_token: None,
        settings: None,
        email_count: 0,
    }
}

/// Stands for the service: counts what is fetched.
struct Service {
    all: Vec<Workspace>,
    single_fetches: usize,
    bulk_fetches: usize,
}

impl Service {
    fn new(all: Vec<Workspace>) -> Self {
        Service { all, single_fetches: 0, bulk_fetches: 0 }
    }

    fn resolve(&mut self, cache: &mut WorkspaceCache, id: &str) -> Result<Arc<Workspace>, Error> {
        match cache.plan_workspace(id) {
            WorkspacePlan::Cached(w) => Ok(Arc::clone(w)),
            WorkspacePlan::FetchOne => {
                self.single_fetches += 1;
                let found = self.all.iter().find(|w| w.has_id(id)).cloned();
                match found {
                    Some(w) => Ok(Arc::clone(cache.insert(w))),
                    None => Err(Error::ApiError(404, None)),
                }
            }
            WorkspacePlan::FetchAll => {
                self.bulk_fetches += 1;
                cache.insert_all(self.all.clone());
                cache.find_workspace(id).map(Arc::clone)
            }
        }
    }
}

#[test]
fn workspace_by_id_is_fetched_once() {
    let mut service = Service::new(vec![workspace(41, "Sales", vec![]), workspace(42, "Ops", vec![])]);
    let mut cache = WorkspaceCache::new();
    assert!(matches!(cache.plan_workspace("42"), WorkspacePlan::FetchOne));
    let first = service.resolve(&mut cache, "42").unwrap();
    assert_eq!(first.id, 42);
    assert_eq!((service.single_fetches, service.bulk_fetches), (1, 0));
    let second = service.resolve(&mut cache, "42").unwrap();
    assert_eq!(second.id, 42);
    assert_eq!(second.uuid, first.uuid);
    // both hold the one instance of the cache
    assert!(Arc::ptr_eq(&first, &second));
    assert!(Arc::ptr_eq(&first, cache.get_cached_workspace(42).unwrap().workspace()));
    assert_eq!((service.single_fetches, service.bulk_fetches), (1, 0));
    // any other identifier of the cached workspace is a hit as well
    assert_eq!(service.resolve(&mut cache, "Ops").unwrap().id, 42);
    assert_eq!(service.resolve(&mut cache, "w42").unwrap().id, 42);
    assert_eq!((service.single_fetches, service.bulk_fetches), (1, 0));
    assert_eq!(cache.all_workspaces().len(), 1);
}

#[test]
fn workspace_by_name_takes_all_and_may_be_missing() {
    let mut service = Service::new(vec![workspace(41, "Sales", vec![]), workspace(42, "Ops", vec![])]);
    let mut cache = WorkspaceCache::new();
    assert!(matches!(cache.plan_workspace("Marketing"), WorkspacePlan::FetchAll));
    match service.resolve(&mut cache, "Marketing") {
        Err(Error::NotFound(m)) => assert_eq!(m, "Workspace 'Marketing' not found"),
        other => panic!("{:?}", other.map(|w| w.id)),
    }
    assert_eq!((service.single_fetches, service.bulk_fetches), (0, 1));
    assert_eq!(cache.all_workspaces().len(), 2);
    assert_eq!(service.resolve(&mut cache, "Sales").unwrap().id, 41);
    assert_eq!((service.single_fetches, service.bulk_fetches), (0, 1));
    // a name that still misses asks for all again, though the cache holds some
    assert!(matches!(cache.plan_workspace("Marketing"), WorkspacePlan::FetchAll));
    assert!(matches!(service.resolve(&mut cache, "Marketing"), Err(Error::NotFound(_))));
    assert_eq!((service.single_fetches, service.bulk_fetches), (0, 2));
    assert_eq!(service.resolve(&mut cache, "Ops").unwrap().id, 42);
}

#[test]
fn resolving_twice_gives_the_same_without_a_fetch() {
    let mut cache = WorkspaceCache::new();
    cache.insert_all(vec![workspace(1, "A", vec![]), workspace(2, "B", vec![]), workspace(3, "B", vec![])]);
    for id in ["2", "B", "w2"] {
        let first = match cache.plan_workspace(id) {
            WorkspacePlan::Cached(w) => w.id,
            other => panic!("{:?}", other),
        };
        let second = match cache.plan_workspace(id) {
            WorkspacePlan::Cached(w) => w.id,
            other => panic!("{:?}", other),
        };
        assert_eq!((first, second), (2, 2));
    }
    cache.insert(workspace(4, "B", vec![]));
    assert!(matches!(cache.plan_workspace("B"), WorkspacePlan::Cached(w) if w.id == 2));
}

#[test]
fn identifier_shape_decides_the_fetch() {
    for id in [
        "42",
        "+42",
        "007",
        "aaaaaaaa-bbbb-cccc-dddd-eeeeeeeeeeee",
        "9223372036854775807",
        "9223372036854775808",
        "18446744073709551615",
        "000018446744073709551615",
    ] {
        assert!(is_fetchable_alone(id), "{}", id);
    }
    for id in [
        "Marketing",
        "",
        "0",
        "+0",
        "-3",
        "+",
        "42a",
        "4 2",
        "18446744073709551616",
        "99999999999999999999999",
        "aaaaaaaa-bbbb-cccc-dddd-eeeeeeeeeee",
    ] {
        assert!(!is_fetchable_alone(id), "{}", id);
    }
    let cache = WorkspaceCache::new();
    assert!(matches!(cache.plan_workspace("aaaaaaaa-bbbb-cccc-dddd-eeeeeeeeeeee"), WorkspacePlan::FetchOne));
    assert!(matches!(cache.plan_workspace("w42"), WorkspacePlan::FetchAll));
}

#[test]
fn cached_workspaces_are_found_and_cleared() {
    let mut cache = WorkspaceCache::new();
    assert!(!cache.have_workspaces());
    cache.insert(workspace(5, "Five", vec![]));
    assert!(cache.have_workspaces());
    assert_eq!(cache.get_cached_workspace(5).unwrap().workspace().name, "Five");
    assert_eq!(cache.get_cached_workspace_allid("Five").unwrap().workspace().id, 5);
    match cache.get_cached_workspace(6) {
        Err(Error::NotFound(m)) => assert_eq!(m, "Invalid workspace_id '6'"),
        other => panic!("{:?}", other.map(|w| w.workspace().id)),
    }
    match cache.get_cached_workspace_allid("Six") {
        Err(Error::NotFound(m)) => assert_eq!(m, "Invalid workspace_id 'Six'"),
        other => panic!("{:?}", other.map(|w| w.workspace().id)),
    }
    cache.clear_workspace_cache();
    assert!(!cache.have_workspaces());
    assert!(cache.get_cached_workspace(5).is_err());
    assert!(matches!(cache.plan_workspace("5"), WorkspacePlan::FetchOne));
}

#[test]
fn users_are_fetched_when_the_roster_is_empty_or_on_demand() {
    let mut cache = WorkspaceCache::new();
    cache.insert(workspace(5, "Five", vec![]));
    cache.insert(workspace(6, "Six", vec![]));
    assert_eq!(cache.needs_users(5, false).unwrap(), true);
    assert!(cache.store_users(5, vec![user(1, "alice")]).is_ok());
    assert_eq!(cache.needs_users(5, false).unwrap(), false);
    assert_eq!(cache.needs_users(5, true).unwrap(), true);
    assert_eq!(cache.needs_users(6, false).unwrap(), true);
    assert_eq!(cache.get_user_id(5, "ALICE").unwrap(), Some(1));
    assert_eq!(cache.get_user_id(5, "bob").unwrap(), None);
    assert_eq!(cache.get_user_id(6, "alice").unwrap(), None);
    assert_eq!(cache.get_users(5).unwrap().len(), 1);
    assert_eq!(cache.get_users(6).unwrap().len(), 0);
    match cache.get_user_id(7, "alice") {
        Err(Error::NotFound(m)) => assert_eq!(m, "get_workspace_users: invalid workspace_id '7'"),
        other => panic!("{:?}", other),
    }
    assert!(cache.store_users(7, vec![]).is_err());
    assert!(cache.needs_users(7, true).is_err());
    // order and workspaces are as before
    assert_eq!(cache.all_workspaces().iter().map(|w| w.id).collect::<Vec<_>>(), vec![5, 6]);
    assert!(cache.store_users(5, vec![user(2, "bob"), user(3, "carol")]).is_ok());
    assert_eq!(cache.get_user_id(5, "alice").unwrap(), None);
    assert_eq!(cache.get_user_id(5, "carol").unwrap(), Some(3));
}

#[test]
fn workspace_data_holds_its_roster() {
    let mut wd = WorkspaceData::new(workspace(1, "One", vec![]));
    assert!(wd.needs_users(false));
    wd.store_users(vec![user(4, "Dan")]);
    assert!(!wd.needs_users(false));
    assert!(wd.needs_users(true));
    assert_eq!(wd.users().len(), 1);
    assert_eq!(wd.get_user_id("dan"), Some(4));
    assert_eq!(wd.user_cache().get_user_id("DAN"), Some(4));
    assert_eq!(wd.workspace().id, 1);
    assert_eq!(wd.find_user(|u| u.id == 4).map(|u| u.display_name.as_str()), Some("Dan"));
    assert!(wd.find_user(|u| u.id == 5).is_none());
}

#[test]
fn list_is_looked_for_in_its_workspace() {
    let w = workspace(1, "One", vec![list(10, "Tasks", 1), list(11, "Bugs", 1), list(12, "Bugs", 1)]);
    assert_eq!(find_list(&w, "Bugs", 1).unwrap().id, 11);
    assert_eq!(find_list(&w, "12", 1).unwrap().id, 12);
    assert_eq!(find_list(&w, "l10", 1).unwrap().id, 10);
    match find_list(&w, "Notes", 1) {
        Err(Error::NotFound(m)) => {
            assert_eq!(m, "get_list_info: invalid list 'Notes' in workspace 'One' (1)")
        }
        other => panic!("{:?}", other.map(|l| l.id)),
    }
}

#[test]
fn list_plan_goes_from_workspace_to_fields_to_cache() {
    let mut workspaces = WorkspaceCache::new();
    let mut lists = ListCache::new();
    match plan_list(&lists, &workspaces, 1, "Tasks") {
        Ok(ListPlan::FetchWorkspace(id)) => assert_eq!(id, "1"),
        other => panic!("{:?}", other),
    }
    workspaces.insert(workspace(1, "One", vec![list(10, "Tasks", 1)]));
    let summary = match plan_list(&lists, &workspaces, 1, "Tasks") {
        Ok(ListPlan::FetchFields(l)) => l.clone(),
        other => panic!("{:?}", other),
    };
    assert_eq!(summary.id, 10);
    assert!(matches!(plan_list(&lists, &workspaces, 1, "Nope"), Err(Error::NotFound(_))));
    let inserted = Arc::clone(lists.insert(ListInfo::new(summary, vec![])));
    assert!(Arc::ptr_eq(&inserted, lists.get_cached_list("Tasks").unwrap()));
    for id in ["Tasks", "10", "l10"] {
        match plan_list(&lists, &workspaces, 1, id) {
            Ok(ListPlan::Cached(li)) => assert_eq!(li.get_id(), 10),
            other => panic!("{:?}", other),
        }
    }
    // a cached list is found whatever workspace is named
    assert!(matches!(plan_list(&lists, &workspaces, 99, "Tasks"), Ok(ListPlan::Cached(_))));
    match lists.get_cached_list("Other") {
        Err(Error::NotFound(m)) => assert_eq!(m, "Invalid list 'Other'"),
        other => panic!("{:?}", other.map(|l| l.get_id())),
    }
    lists.clear_list_cache();
    assert!(matches!(plan_list(&lists, &workspaces, 1, "Tasks"), Ok(ListPlan::FetchFields(_))));
}

#[test]
fn config_defaults_to_the_service() {
    let c = ApiConfig::with_token("secret".to_string());
    assert_eq!(c.token, "secret");
    assert_eq!(c.endpoint, "https://zenkit.com/api/v1");
    assert_eq!(DEFAULT_ENDPOINT, "https://zenkit.com/api/v1");
}
