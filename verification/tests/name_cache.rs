use std::cell::RefCell;
use std::collections::HashMap;

use cronback::name_cache::{Fetcher, NameCache};

#[test]
fn test_name_cache_basics() {
    let mut cache = NameCache::without_fetcher();
    let project_id1 = "prj_1".to_string();
    let trigger_id1 = "trig_1".to_string();
    let trigger_id2 = "trig_2".to_string();
    let trigger_name1 = "test_trigger_name-1".to_string();
    let trigger_name2 = "test_trigger_name-2".to_string();
    assert_eq!(None, cache.insert(project_id1.clone(), trigger_name1, trigger_id1.clone()));
    assert_eq!(None, cache.insert(project_id1.clone(), trigger_name2, trigger_id2.clone()));

    assert_eq!(Some(trigger_id1), cache.get_if_cached(&project_id1, "test_trigger_name-1"));

    assert_eq!(Some(trigger_id2.clone()), cache.get_if_cached(&project_id1, "test_trigger_name-2"));

    assert_eq!(Some(trigger_id2), cache.get_if_cached(&project_id1, "test_trigger_name-2"));

    let project_id2 = "prj_2".to_string();

    // We have nothing for project 2 yet.
    assert_eq!(None, cache.get_if_cached(&project_id2, "test_trigger_name-1"));
}

#[test]
fn test_remove_and_compact() {
    let mut cache = NameCache::without_fetcher();
    let project_id1 = "prj_1".to_string();
    let trigger_id1 = "trig_1".to_string();
    let trigger_name1 = "test_trigger_name-1".to_string();
    assert_eq!(0, cache.num_projects());
    cache.insert(project_id1.clone(), trigger_name1.clone(), trigger_id1.clone());
    assert_eq!(1, cache.num_projects());
    cache.compact();
    // No impact, we still have a trigger.
    assert_eq!(1, cache.num_projects());

    // Put another project
    let project_id2 = "prj_2".to_string();
    let trigger_id2 = "trig_2".to_string();
    // same name, that's okay!
    cache.insert(project_id2.clone(), trigger_name1.clone(), trigger_id2);
    assert_eq!(2, cache.num_projects());
    // also total size is 2
    assert_eq!(2, cache.total_size());
    cache.remove(&project_id2, &trigger_name1);
    assert_eq!(2, cache.num_projects());
    // Now compact, project2 should be gone.
    cache.compact();
    assert_eq!(1, cache.num_projects());

    // Making sure we still have the trigger for the first project
    assert_eq!(Some(trigger_id1), cache.get_if_cached(&project_id1, &trigger_name1));
}

/// A fetcher backed by a map from trigger names to ids; counts its calls.
struct MapFetcher {
    store: HashMap<String, String>,
    calls: RefCell<usize>,
}

impl Fetcher for MapFetcher {
    type Error = String;

    fn call(&self, _project_id: String, name: String) -> Result<Option<String>, String> {
        *self.calls.borrow_mut() += 1;
        Ok(self.store.get(&name).cloned())
    }
}

#[test]
fn test_name_cache_fether() {
    let project_id1 = "prj_1".to_string();
    let trigger_id1 = "trig_1".to_string();
    let trigger_name1 = "test_trigger_name-1".to_string();

    let mut store = HashMap::new();
    // add trigger to the virtual store
    store.insert(trigger_name1.clone(), trigger_id1.clone());

    let mut cache = NameCache::new(MapFetcher { store, calls: RefCell::new(0) });

    assert_eq!(0, cache.total_size());
    // A miss first.
    assert_eq!(Ok(None), cache.get(&project_id1, "does-not-exist"));
    // A cache miss, but fetcher hit.
    assert_eq!(Ok(Some(trigger_id1.clone())), cache.get(&project_id1, &trigger_name1));
    assert_eq!(1, cache.total_size());
    // Cache hit.
    assert_eq!(Some(trigger_id1.clone()), cache.get_if_cached(&project_id1, &trigger_name1));

    // A cache hit.
    assert_eq!(Ok(Some(trigger_id1.clone())), cache.get(&project_id1, &trigger_name1));

    // Remove from cache and get again, it will hit the fetcher.
    assert!(cache.remove(&project_id1, &trigger_name1).is_some());

    // A miss, but fetcher hit.
    assert_eq!(Ok(Some(trigger_id1)), cache.get(&project_id1, &trigger_name1));
}

/// A fetcher that always fails.
struct FailingFetcher;

impl Fetcher for FailingFetcher {
    type Error = String;

    fn call(&self, _project_id: String, _name: String) -> Result<Option<String>, String> {
        Err("store down".to_string())
    }
}

#[test]
fn fetcher_errors_leave_cache_unchanged() {
    let mut cache = NameCache::new(FailingFetcher);
    assert_eq!(Err("store down".to_string()), cache.get("p", "n"));
    assert_eq!(0, cache.total_size());
    assert_eq!(0, cache.num_projects());
    // A cached name is answered without asking the fetcher.
    cache.insert("p".to_string(), "n".to_string(), "t".to_string());
    assert_eq!(Ok(Some("t".to_string())), cache.get("p", "n"));
}

#[test]
fn lookups_after_changes() {
    let mut cache = NameCache::without_fetcher();
    assert_eq!(cache.insert("p".to_string(), "a".to_string(), "1".to_string()), None);
    assert_eq!(cache.insert("p".to_string(), "a".to_string(), "2".to_string()), Some("1".to_string()));
    assert_eq!(cache.get_if_cached("p", "a"), Some("2".to_string()));
    assert_eq!(cache.insert("q".to_string(), "a".to_string(), "3".to_string()), None);
    assert_eq!(cache.remember_fetched("p", "b", Some("4".to_string())), Some("4".to_string()));
    assert_eq!(cache.remember_fetched("p", "c", None), None);
    assert_eq!(cache.get_if_cached("p", "b"), Some("4".to_string()));
    assert_eq!(cache.get_if_cached("p", "c"), None);
    assert_eq!(cache.total_size(), 3);
    assert_eq!(cache.remove("p", "a"), Some("2".to_string()));
    assert_eq!(cache.remove("p", "a"), None);
    assert_eq!(cache.get_if_cached("q", "a"), Some("3".to_string()));
    cache.remove_project("q");
    assert_eq!(cache.get_if_cached("q", "a"), None);
    assert_eq!(cache.num_projects(), 1);
    assert_eq!(cache.get_if_cached("p", "b"), Some("4".to_string()));
}

#[test]
fn compact_keeps_total_size() {
    let mut cache = NameCache::without_fetcher();
    cache.insert("p".to_string(), "a".to_string(), "1".to_string());
    cache.insert("p".to_string(), "b".to_string(), "2".to_string());
    cache.insert("q".to_string(), "a".to_string(), "3".to_string());
    cache.insert("r".to_string(), "c".to_string(), "4".to_string());
    cache.remove("q", "a");
    assert_eq!(cache.num_projects(), 3);
    assert_eq!(cache.total_size(), 3);
    cache.compact();
    assert_eq!(cache.num_projects(), 2);
    assert_eq!(cache.total_size(), 3);
    assert_eq!(cache.get_if_cached("p", "b"), Some("2".to_string()));
    assert_eq!(cache.get_if_cached("r", "c"), Some("4".to_string()));
}
