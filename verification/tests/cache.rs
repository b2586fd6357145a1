use rdm::cache::{
    cache_file_name, cache_path, freshness, freshness_at, to_millis, Cache, CacheData, CacheError,
    Freshness, FRESHNESS_WINDOW_MS,
};
use rdm::client::{Client, Error, Method};
use rdm::user_config::{Config, ConfigData};
use rdm::models::{IssueStatus, User};
use rdm::resolver::find_status_id;
use std::time::{SystemTime, UNIX_EPOCH};

fn statuses() -> Vec<IssueStatus> {
    vec![
        IssueStatus::new(1, "New".to_string()),
        IssueStatus::new(5, "Closed".to_string()),
    ]
}

fn users() -> Vec<User> {
    vec![User::new(3, "jdoe".to_string(), "Jane".to_string(), "Doe".to_string())]
}

fn status_pairs() -> Vec<(u32, String)> {
    vec![(1, "New".to_string()), (5, "Closed".to_string())]
}

fn client() -> Client {
    let data = ConfigData {
        redmine_key: "SECRET-REDACTED".to_string(),
        redmine_url: "http://example.com/".to_string(),
        default_close_status: None,
    };
    Client::new(Config::new(data, "/home/me/project/.rdm.json".to_string()))
}

fn stale_cache() -> Cache {
    Cache::new(&client(), Freshness::Stale, Ok(CacheData::empty())).unwrap()
}

fn wall_clock_millis() -> u64 {
    SystemTime::now().duration_since(UNIX_EPOCH).unwrap().as_millis() as u64
}

#[test]
fn window_is_two_hours() {
    assert_eq!(FRESHNESS_WINDOW_MS, 2 * 60 * 60 * 1000);
}

#[test]
fn equal_timestamps_are_fresh() {
    assert_eq!(freshness_at(Some(1_000), Some(1_000), 1_000), Freshness::Fresh);
}

#[test]
fn cache_older_than_config_is_stale() {
    assert_eq!(freshness_at(Some(1_001), Some(1_000), 1_000), Freshness::Stale);
    assert_eq!(freshness_at(Some(u64::MAX), Some(0), 0), Freshness::Stale);
}

#[test]
fn window_bound_is_exclusive() {
    let cache: u64 = 1_700_000_000_000;
    let now = cache as i64;
    assert_eq!(freshness_at(Some(0), Some(cache), now + 7_199_999), Freshness::Fresh);
    assert_eq!(freshness_at(Some(0), Some(cache), now + 7_200_000), Freshness::Stale);
    assert_eq!(freshness_at(Some(0), Some(cache), now + 7_200_001), Freshness::Stale);
}

#[test]
fn missing_timestamps_are_stale() {
    assert_eq!(freshness_at(None, Some(10), 10), Freshness::Stale);
    assert_eq!(freshness_at(Some(10), None, 10), Freshness::Stale);
    assert_eq!(freshness_at(None, None, 10), Freshness::Stale);
}

#[test]
fn cache_written_after_now_is_fresh() {
    assert_eq!(freshness_at(Some(5), Some(10_000_000), 0), Freshness::Fresh);
    assert_eq!(freshness_at(Some(0), Some(u64::MAX), i64::MIN), Freshness::Fresh);
}

#[test]
fn far_future_now_is_stale_without_overflow() {
    assert_eq!(freshness_at(Some(0), Some(0), i64::MAX), Freshness::Stale);
    assert_eq!(freshness_at(Some(0), Some(u64::MAX), i64::MAX), Freshness::Fresh);
}

#[test]
fn freshness_reads_the_clock() {
    let now = wall_clock_millis();
    assert_eq!(freshness(Some(now - 10_000), Some(now - 5_000)), Freshness::Fresh);
    assert_eq!(freshness(Some(0), Some(now - 3 * 60 * 60 * 1000)), Freshness::Stale);
    assert_eq!(freshness(Some(now), Some(now - 1)), Freshness::Stale);
    assert_eq!(freshness(None, Some(now)), Freshness::Stale);
}

#[test]
fn instants_convert_to_whole_milliseconds() {
    assert_eq!(to_millis(0, 0), 0);
    assert_eq!(to_millis(1, 500_000_000), 1_500);
    assert_eq!(to_millis(1, 999_999_999), 1_999);
    assert_eq!(to_millis(-1, 0), -1_000);
    assert_eq!(to_millis(-2, 800_000_000), -1_200);
    assert_eq!(to_millis(i64::MAX, 0), i64::MAX);
    assert_eq!(to_millis(i64::MIN, 999_999_999), i64::MIN);
}

#[test]
fn cache_file_has_its_fixed_name() {
    assert_eq!(cache_file_name(), ".rdm-cache.json");
}

#[test]
fn cache_lies_beside_the_configuration() {
    assert_eq!(cache_path("/home/me/project/.rdm.json"), "/home/me/project/.rdm-cache.json");
    assert_eq!(cache_path("/.rdm.json"), "/.rdm-cache.json");
    assert_eq!(cache_path(".rdm.json"), ".rdm-cache.json");
    assert_eq!(cache_path("work/settings.json"), "work/.rdm-cache.json");
}

#[test]
fn fresh_cache_knows_its_path() {
    let cache = Cache::new(&client(), Freshness::Fresh, Ok(CacheData::empty())).unwrap();
    assert_eq!(cache.path(), "/home/me/project/.rdm-cache.json");
}

#[test]
fn stale_cache_starts_empty() {
    let stored = CacheData::new(Some(statuses()), Some(users()));
    let cache = Cache::new(&client(), Freshness::Stale, Ok(stored)).unwrap();
    assert_eq!(cache.issue_statuses(), None);
    assert_eq!(cache.users(), None);
    assert_eq!(cache.update_cache(), CacheData::empty());
    assert_eq!(cache.path(), "/home/me/project/.rdm-cache.json");
}

#[test]
fn stale_cache_ignores_a_broken_file() {
    let broken = Err(CacheError::Parse("EOF".to_string()));
    let cache = Cache::new(&client(), Freshness::Stale, broken).unwrap();
    assert_eq!(cache.issue_statuses(), None);
}

#[test]
fn fresh_cache_serves_the_stored_snapshot() {
    let stored = CacheData::new(Some(statuses()), None);
    let cache = Cache::new(&client(), Freshness::Fresh, Ok(stored)).unwrap();
    assert_eq!(cache.issue_statuses(), Some(status_pairs()));
    assert_eq!(cache.users(), None);
}

#[test]
fn fresh_but_broken_file_is_an_error() {
    let broken = Err(CacheError::Parse("expected object".to_string()));
    let opened = Cache::new(&client(), Freshness::Fresh, broken);
    assert_eq!(opened.unwrap_err(), CacheError::Parse("expected object".to_string()));
    let unreadable = Err(CacheError::Io("permission denied".to_string()));
    let opened = Cache::new(&client(), Freshness::Fresh, unreadable);
    assert_eq!(opened.unwrap_err(), CacheError::Io("permission denied".to_string()));
}

#[test]
fn second_lookup_is_a_hit() {
    let mut cache = stale_cache();
    assert_eq!(cache.issue_statuses(), None);
    let (pairs, snapshot) = cache.store_issue_statuses(Ok(statuses())).unwrap();
    assert_eq!(pairs, status_pairs());
    assert_eq!(snapshot, CacheData::new(Some(statuses()), None));
    assert_eq!(cache.issue_statuses(), Some(status_pairs()));
    assert_eq!(cache.issue_statuses(), Some(status_pairs()));
}

#[test]
fn failed_fetch_leaves_the_snapshot_alone() {
    let mut cache = stale_cache();
    let failure = Error::Server(Method::Get, "http://r/issue_statuses.json".to_string());
    let served = cache.store_issue_statuses(Err(failure));
    assert_eq!(
        served.unwrap_err(),
        Error::Server(Method::Get, "http://r/issue_statuses.json".to_string())
    );
    assert_eq!(cache.issue_statuses(), None);
    assert_eq!(cache.update_cache(), CacheData::empty());
}

#[test]
fn failed_users_fetch_keeps_the_statuses() {
    let mut cache = stale_cache();
    cache.store_issue_statuses(Ok(statuses())).unwrap();
    let served = cache.store_users(Err(Error::Http("connection refused".to_string())));
    assert_eq!(served.unwrap_err(), Error::Http("connection refused".to_string()));
    assert_eq!(cache.issue_statuses(), Some(status_pairs()));
    assert_eq!(cache.users(), None);
    assert_eq!(cache.update_cache(), CacheData::new(Some(statuses()), None));
}

#[test]
fn failed_statuses_fetch_keeps_the_users() {
    let mut cache = stale_cache();
    cache.store_users(Ok(users())).unwrap();
    let served = cache.store_issue_statuses(Err(Error::Response("bad json".to_string())));
    assert_eq!(served.unwrap_err(), Error::Response("bad json".to_string()));
    assert_eq!(cache.users(), Some(users()));
    assert_eq!(cache.issue_statuses(), None);
}

#[test]
fn each_store_hands_back_the_whole_snapshot() {
    let mut cache = stale_cache();
    let (_, first) = cache.store_issue_statuses(Ok(statuses())).unwrap();
    assert_eq!(first, CacheData::new(Some(statuses()), None));
    let (served, second) = cache.store_users(Ok(users())).unwrap();
    assert_eq!(served, users());
    assert_eq!(second, CacheData::new(Some(statuses()), Some(users())));
}

#[test]
fn written_snapshot_reopens_to_the_same_data() {
    let mut cache = stale_cache();
    cache.store_issue_statuses(Ok(statuses())).unwrap();
    cache.store_users(Ok(users())).unwrap();
    let written = cache.update_cache();
    let reopened = Cache::new(&client(), Freshness::Fresh, Ok(written)).unwrap();
    assert_eq!(reopened.issue_statuses(), cache.issue_statuses());
    assert_eq!(reopened.users(), cache.users());
    assert_eq!(reopened, cache);
}

#[test]
fn empty_lists_count_as_fetched() {
    let mut cache = stale_cache();
    let (pairs, _) = cache.store_issue_statuses(Ok(Vec::new())).unwrap();
    assert_eq!(pairs, Vec::new());
    assert_eq!(cache.issue_statuses(), Some(Vec::new()));
}

#[test]
fn cached_statuses_feed_the_resolver() {
    let mut cache = stale_cache();
    let (pairs, _) = cache.store_issue_statuses(Ok(statuses())).unwrap();
    assert_eq!(find_status_id(&pairs, "clo").unwrap(), 5);
    let again = cache.issue_statuses().unwrap();
    assert_eq!(find_status_id(&again, "NEW").unwrap(), 1);
}

#[test]
fn cache_error_messages() {
    assert_eq!(CacheError::Io("disk full".to_string()).message(), "Cache error: disk full");
    assert_eq!(
        CacheError::Parse("EOF".to_string()).message(),
        "Cache error: invalid cache file: EOF"
    );
}

#[test]
fn snapshot_copy_is_equal() {
    let data = CacheData::new(Some(statuses()), Some(users()));
    assert_eq!(data.clone(), data);
}
