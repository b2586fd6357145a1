//! The local cache of the tracker's reference data.
//!
//! The cache keeps one snapshot: the issue statuses and the users, each
//! either not yet fetched or fully fetched. A snapshot read from disk is
//! trusted only while it is fresh. Each field is fetched lazily, on first
//! use, and a failed fetch of one field leaves the other untouched.
//!
//! Nothing here reads or writes a file or talks to the tracker. A lookup
//! either serves the snapshot or reports a miss; after a miss the caller
//! fetches, hands the outcome to the cache, and writes the snapshot that the
//! cache hands back.

use crate::client::{Client, Error};
use crate::models::{IssueStatus, User, UserView};
use crate::resolver::candidates_view;
use std::path::Path;
use vstd::prelude::*;
use vstd::string::*;

verus! {

/// Length of the freshness window, two hours, in milliseconds.
pub const FRESHNESS_WINDOW_MS: u64 = 7_200_000;

/// Whether a snapshot on disk may be trusted.
#[derive(Clone, Copy, Debug, PartialEq, Eq, Structural)]
pub enum Freshness {
    Fresh,
    Stale,
}

/// The freshness rule. All three instants are milliseconds since the epoch;
/// a modification time is `None` where the file is missing or its metadata
/// cannot be read. The snapshot is fresh when it was written at or after the
/// last change of the configuration and less than two hours before `now`.
pub open spec fn is_fresh(
    config_modified: Option<u64>,
    cache_modified: Option<u64>,
    now: int,
) -> bool {
    &&& config_modified matches Some(config)
    &&& cache_modified matches Some(cache)
    &&& config <= cache
    &&& now - cache < FRESHNESS_WINDOW_MS
}

/// Decides freshness at a given instant.
pub fn freshness_at(
    config_modified: Option<u64>,
    cache_modified: Option<u64>,
    now: i64,
) -> (decision: Freshness)
    ensures
        decision == Freshness::Fresh <==> is_fresh(config_modified, cache_modified, now as int),
{
    match (config_modified, cache_modified) {
        (Some(config), Some(cache)) => {
            if config <= cache {
                let elapsed: i128 = now as i128 - cache as i128;
                if elapsed < FRESHNESS_WINDOW_MS as i128 {
                    Freshness::Fresh
                } else {
                    Freshness::Stale
                }
            } else {
                Freshness::Stale
            }
        },
        _ => Freshness::Stale,
    }
}

/// Reads the wall clock with `time::now().to_timespec()` and hands back the
/// seconds and nanoseconds since the epoch. The value is whatever the clock
/// says; the contract states only that the nanoseconds lie below one second,
/// which the crate asserts of every `Timespec` it builds.
#[verifier::external_body]
fn read_clock() -> (now: (i64, i32))
    ensures
        0 <= now.1 < 1_000_000_000,
{
    let stamp = time::now().to_timespec();
    (stamp.sec, stamp.nsec)
}

/// The whole milliseconds in an instant given as seconds and nanoseconds,
/// held to the range of `i64`.
pub open spec fn millis_of(sec: i64, nsec: i32) -> int {
    let exact = sec * 1000 + nsec / 1_000_000;
    if exact < i64::MIN {
        i64::MIN as int
    } else if exact > i64::MAX {
        i64::MAX as int
    } else {
        exact
    }
}

/// Converts an instant in seconds and nanoseconds to milliseconds.
pub fn to_millis(sec: i64, nsec: i32) -> (millis: i64)
    requires
        0 <= nsec < 1_000_000_000,
    ensures
        millis == millis_of(sec, nsec),
{
    let exact: i128 = sec as i128 * 1000 + (nsec / 1_000_000) as i128;
    if exact < i64::MIN as i128 {
        i64::MIN
    } else if exact > i64::MAX as i128 {
        i64::MAX
    } else {
        exact as i64
    }
}

/// Whether the snapshot was written at or after the last change of the
/// configuration: the part of the freshness rule that needs no clock.
pub open spec fn newer_than_config(
    config_modified: Option<u64>,
    cache_modified: Option<u64>,
) -> bool {
    config_modified matches Some(config) && cache_modified matches Some(cache) && config <= cache
}

/// Decides freshness now. The clock is read only when the snapshot is at
/// least as new as the configuration; otherwise the snapshot is stale
/// whatever the time. Whatever the clock says, the decision is the one that
/// [`freshness_at`] takes at some instant.
pub fn freshness(config_modified: Option<u64>, cache_modified: Option<u64>) -> (decision:
    Freshness)
    ensures
        !newer_than_config(config_modified, cache_modified) ==> decision == Freshness::Stale,
        exists|now: i64|
            decision == Freshness::Fresh <==> is_fresh(config_modified, cache_modified, now as int),
{
    let newer_than_config = match (config_modified, cache_modified) {
        (Some(config), Some(cache)) => config <= cache,
        _ => false,
    };
    if newer_than_config {
        let clock = read_clock();
        let now = to_millis(clock.0, clock.1);
        let decision = freshness_at(config_modified, cache_modified, now);
        assert(decision == Freshness::Fresh <==> is_fresh(
            config_modified,
            cache_modified,
            now as int,
        ));
        decision
    } else {
        assert(Freshness::Stale == Freshness::Fresh <==> is_fresh(
            config_modified,
            cache_modified,
            0i64 as int,
        ));
        Freshness::Stale
    }
}

/// Name of the cache file; it lies in the directory of the configuration
/// file.
pub fn cache_file_name() -> (name: &'static str)
    ensures
        name@ == ".rdm-cache.json"@,
{
    ".rdm-cache.json"
}

/// The path that is like `path` but ends in `file_name`: what
/// `std::path::Path::with_file_name` gives.
pub uninterp spec fn path_with_file_name(path: Seq<char>, file_name: Seq<char>) -> Seq<char>;

/// Calls `Path::with_file_name` on the path that `path` spells and hands the
/// result back as text. The contract only names it.
#[verifier::external_body]
fn with_file_name(path: &str, file_name: &str) -> (sibling: String)
    ensures
        sibling@ == path_with_file_name(path@, file_name@),
{
    Path::new(path).with_file_name(file_name).to_string_lossy().into_owned()
}

/// Where the cache of a configuration lies: beside the configuration file,
/// under the cache's fixed name.
pub open spec fn cache_path_of(config_path: Seq<char>) -> Seq<char> {
    path_with_file_name(config_path, ".rdm-cache.json"@)
}

/// Computes the location of the cache file from that of the configuration
/// file.
pub fn cache_path(config_path: &str) -> (path: String)
    ensures
        path@ == cache_path_of(config_path@),
{
    with_file_name(config_path, cache_file_name())
}

/// A failure to read, decode or write the cache file. It is fatal: nothing
/// retries it and nothing falls back to an empty cache.
#[derive(Debug, PartialEq, Eq)]
pub enum CacheError {
    /// The file could not be opened, read or written.
    Io(String),
    /// The file's contents are not a snapshot.
    Parse(String),
}

impl CacheError {
    pub open spec fn message_text(&self) -> Seq<char> {
        match self {
            CacheError::Io(cause) => "Cache error: "@ + cause@,
            CacheError::Parse(cause) => "Cache error: invalid cache file: "@ + cause@,
        }
    }

    /// The text shown to the user.
    pub fn message(&self) -> (text: String)
        ensures
            text@ == self.message_text(),
    {
        match self {
            CacheError::Io(cause) => {
                let mut text = String::from_str("Cache error: ");
                text.append(cause.as_str());
                text
            },
            CacheError::Parse(cause) => {
                let mut text = String::from_str("Cache error: invalid cache file: ");
                text.append(cause.as_str());
                text
            },
        }
    }
}

/// The models of a list of statuses, in order.
pub open spec fn statuses_view(statuses: Seq<IssueStatus>) -> Seq<(u32, Seq<char>)> {
    Seq::new(statuses.len(), |i: int| statuses[i]@)
}

/// The models of a list of users, in order.
pub open spec fn users_view(users: Seq<User>) -> Seq<UserView> {
    Seq::new(users.len(), |i: int| users[i]@)
}

/// The snapshot as it is held in memory and written to disk. A field is
/// `None` until it has been fetched.
#[derive(Debug, PartialEq, Eq)]
pub struct CacheData {
    pub issue_statuses: Option<Vec<IssueStatus>>,
    pub users: Option<Vec<User>>,
}

/// Mathematical model of a snapshot.
pub struct Snapshot {
    pub issue_statuses: Option<Seq<(u32, Seq<char>)>>,
    pub users: Option<Seq<UserView>>,
}

impl Snapshot {
    /// The snapshot in which nothing has been fetched.
    pub open spec fn empty() -> Snapshot {
        Snapshot { issue_statuses: None, users: None }
    }

    /// What a lookup of the statuses serves: the stored pairs, or `None` for
    /// a miss.
    pub open spec fn lookup_issue_statuses(self) -> Option<Seq<(u32, Seq<char>)>> {
        self.issue_statuses
    }

    /// How many fetches from the tracker serving the statuses takes: none on
    /// a hit, one on a miss.
    pub open spec fn fetches_for_issue_statuses(self) -> nat {
        if self.issue_statuses is Some {
            0
        } else {
            1
        }
    }

    /// What a lookup of the users serves, or `None` for a miss.
    pub open spec fn lookup_users(self) -> Option<Seq<UserView>> {
        self.users
    }

    /// The snapshot after a fetch of the statuses ended with `outcome`: a
    /// success fills the field, a failure changes nothing.
    pub open spec fn after_issue_statuses<E>(
        self,
        outcome: Result<Seq<(u32, Seq<char>)>, E>,
    ) -> Snapshot {
        match outcome {
            Ok(statuses) => Snapshot { issue_statuses: Some(statuses), users: self.users },
            Err(_) => self,
        }
    }

    /// The snapshot after a fetch of the users ended with `outcome`.
    pub open spec fn after_users<E>(self, outcome: Result<Seq<UserView>, E>) -> Snapshot {
        match outcome {
            Ok(users) => Snapshot { issue_statuses: self.issue_statuses, users: Some(users) },
            Err(_) => self,
        }
    }

    /// The snapshot a cache starts with: the stored one where it is fresh,
    /// the empty one where it is stale.
    pub open spec fn opened(freshness: Freshness, stored: Snapshot) -> Snapshot {
        match freshness {
            Freshness::Fresh => stored,
            Freshness::Stale => Snapshot::empty(),
        }
    }
}

impl View for CacheData {
    type V = Snapshot;

    open spec fn view(&self) -> Snapshot {
        Snapshot {
            issue_statuses: match self.issue_statuses {
                Some(statuses) => Some(statuses_view(statuses@)),
                None => None,
            },
            users: match self.users {
                Some(users) => Some(users_view(users@)),
                None => None,
            },
        }
    }
}

fn clone_statuses(statuses: &Vec<IssueStatus>) -> (copy: Vec<IssueStatus>)
    ensures
        copy@ == statuses@,
{
    let mut copy: Vec<IssueStatus> = Vec::new();
    let mut i: usize = 0;
    while i < statuses.len()
        invariant
            i <= statuses.len(),
            copy@ == statuses@.take(i as int),
        decreases statuses.len() - i,
    {
        copy.push(statuses[i].clone());
        assert(copy@ =~= statuses@.take(i + 1));
        i += 1;
    }
    assert(statuses@.take(i as int) =~= statuses@);
    copy
}

fn clone_users(users: &Vec<User>) -> (copy: Vec<User>)
    ensures
        copy@ == users@,
{
    let mut copy: Vec<User> = Vec::new();
    let mut i: usize = 0;
    while i < users.len()
        invariant
            i <= users.len(),
            copy@ == users@.take(i as int),
        decreases users.len() - i,
    {
        copy.push(users[i].clone());
        assert(copy@ =~= users@.take(i + 1));
        i += 1;
    }
    assert(users@.take(i as int) =~= users@);
    copy
}

/// The `(id, name)` pairs of a list of statuses, in order.
fn to_pairs(statuses: &Vec<IssueStatus>) -> (pairs: Vec<(u32, String)>)
    ensures
        candidates_view(pairs@) == statuses_view(statuses@),
{
    let mut pairs: Vec<(u32, String)> = Vec::new();
    let mut i: usize = 0;
    while i < statuses.len()
        invariant
            i <= statuses.len(),
            pairs@.len() == i,
            candidates_view(pairs@) == statuses_view(statuses@).take(i as int),
        decreases statuses.len() - i,
    {
        let ghost before = pairs@;
        let pair = statuses[i].clone().into_pair();
        pairs.push(pair);
        assert forall|j: int| 0 <= j < i + 1 implies candidates_view(pairs@)[j] == statuses_view(
            statuses@,
        ).take(i + 1)[j] by {
            if j < i {
                assert(pairs@[j] == before[j]);
                assert(candidates_view(before)[j] == statuses_view(statuses@).take(i as int)[j]);
            }
        }
        assert(candidates_view(pairs@) =~= statuses_view(statuses@).take(i + 1));
        i += 1;
    }
    assert(statuses_view(statuses@).take(i as int) =~= statuses_view(statuses@));
    pairs
}

impl CacheData {
    /// The snapshot in which nothing has been fetched.
    pub fn empty() -> (data: CacheData)
        ensures
            data@ == Snapshot::empty(),
            data.issue_statuses is None,
            data.users is None,
    {
        CacheData { issue_statuses: None, users: None }
    }

    pub fn new(issue_statuses: Option<Vec<IssueStatus>>, users: Option<Vec<User>>) -> (data:
        CacheData)
        ensures
            data.issue_statuses == issue_statuses,
            data.users == users,
    {
        CacheData { issue_statuses, users }
    }
}

impl Clone for CacheData {
    fn clone(&self) -> (copy: CacheData)
        ensures
            copy@ == self@,
    {
        let issue_statuses = match &self.issue_statuses {
            Some(statuses) => Some(clone_statuses(statuses)),
            None => None,
        };
        let users = match &self.users {
            Some(users) => Some(clone_users(users)),
            None => None,
        };
        CacheData { issue_statuses, users }
    }
}

/// The model of what a fetch of the statuses gave.
pub open spec fn statuses_outcome(outcome: Result<Vec<IssueStatus>, Error>) -> Result<
    Seq<(u32, Seq<char>)>,
    Error,
> {
    match outcome {
        Ok(statuses) => Ok(statuses_view(statuses@)),
        Err(error) => Err(error),
    }
}

/// The model of what a fetch of the users gave.
pub open spec fn users_outcome(outcome: Result<Vec<User>, Error>) -> Result<Seq<UserView>, Error> {
    match outcome {
        Ok(users) => Ok(users_view(users@)),
        Err(error) => Err(error),
    }
}

/// The cache of one configuration: its snapshot and the location of its
/// file.
#[derive(Debug, PartialEq, Eq)]
pub struct Cache {
    data: CacheData,
    path: String,
}

impl View for Cache {
    type V = Snapshot;

    closed spec fn view(&self) -> Snapshot {
        self.data@
    }
}

impl Cache {
    /// The location of the cache file.
    pub closed spec fn path_text(&self) -> Seq<char> {
        self.path@
    }

    /// Opens the cache of a client's configuration. The cache file lies
    /// beside the configuration file. `stored` is what reading and decoding the cache
    /// file gave; it is looked at only when the file is fresh. A fresh file
    /// that could not be read or decoded is an error, not an empty cache. A
    /// stale file is never trusted: the cache starts empty and fetches on
    /// first use.
    pub fn new(
        client: &Client,
        freshness: Freshness,
        stored: Result<CacheData, CacheError>,
    ) -> (opened: Result<Cache, CacheError>)
        ensures
            match (freshness, stored) {
                (Freshness::Fresh, Err(error)) => opened == Err::<Cache, CacheError>(error),
                (Freshness::Fresh, Ok(data)) => opened matches Ok(cache) && cache@
                    == Snapshot::opened(freshness, data@) && cache.path_text() == cache_path_of(
                    client.config.path@,
                ),
                (Freshness::Stale, _) => opened matches Ok(cache) && cache@ == Snapshot::empty()
                    && cache.path_text() == cache_path_of(client.config.path@),
            },
    {
        match freshness {
            Freshness::Fresh => match stored {
                Ok(data) => Ok(Cache { data, path: cache_path(client.config().path()) }),
                Err(error) => Err(error),
            },
            Freshness::Stale => Ok(
                Cache { data: CacheData::empty(), path: cache_path(client.config().path()) },
            ),
        }
    }

    pub fn path(&self) -> (path: &str)
        ensures
            path@ == self.path_text(),
    {
        self.path.as_str()
    }

    /// Looks the issue statuses up in the snapshot. `Some` is a hit and
    /// carries a copy of them as `(id, name)` pairs; `None` is a miss, after
    /// which the caller fetches and calls [`Cache::store_issue_statuses`].
    pub fn issue_statuses(&self) -> (served: Option<Vec<(u32, String)>>)
        ensures
            match served {
                Some(pairs) => self@.lookup_issue_statuses() == Some(candidates_view(pairs@)),
                None => self@.lookup_issue_statuses() is None,
            },
            served is None <==> self@.fetches_for_issue_statuses() == 1,
    {
        match &self.data.issue_statuses {
            Some(statuses) => Some(to_pairs(statuses)),
            None => None,
        }
    }

    /// Takes the outcome of a fetch of the issue statuses. A success fills
    /// the snapshot's field and hands back the statuses as pairs together
    /// with the whole snapshot, which the caller writes to the cache file at
    /// once. A failure comes back as it is and leaves the snapshot as it was.
    pub fn store_issue_statuses(&mut self, outcome: Result<Vec<IssueStatus>, Error>) -> (served:
        Result<(Vec<(u32, String)>, CacheData), Error>)
        ensures
            final(self)@ == old(self)@.after_issue_statuses(statuses_outcome(outcome)),
            final(self).path_text() == old(self).path_text(),
            match outcome {
                Ok(statuses) => served matches Ok(given) && candidates_view(given.0@)
                    == statuses_view(statuses@) && given.1@ == final(self)@,
                Err(error) => served == Err::<(Vec<(u32, String)>, CacheData), Error>(error),
            },
    {
        match outcome {
            Ok(statuses) => {
                let pairs = to_pairs(&statuses);
                self.data.issue_statuses = Some(statuses);
                let snapshot = self.update_cache();
                Ok((pairs, snapshot))
            },
            Err(error) => Err(error),
        }
    }

    /// Looks the users up in the snapshot; `None` is a miss.
    pub fn users(&self) -> (served: Option<Vec<User>>)
        ensures
            match served {
                Some(users) => self@.lookup_users() == Some(users_view(users@)),
                None => self@.lookup_users() is None,
            },
    {
        match &self.data.users {
            Some(users) => Some(clone_users(users)),
            None => None,
        }
    }

    /// Takes the outcome of a fetch of the users, as
    /// [`Cache::store_issue_statuses`] does for the statuses.
    pub fn store_users(&mut self, outcome: Result<Vec<User>, Error>) -> (served: Result<
        (Vec<User>, CacheData),
        Error,
    >)
        ensures
            final(self)@ == old(self)@.after_users(users_outcome(outcome)),
            final(self).path_text() == old(self).path_text(),
            match outcome {
                Ok(users) => served matches Ok(given) && users_view(given.0@) == users_view(users@)
                    && given.1@ == final(self)@,
                Err(error) => served == Err::<(Vec<User>, CacheData), Error>(error),
            },
    {
        match outcome {
            Ok(users) => {
                let copy = clone_users(&users);
                self.data.users = Some(users);
                let snapshot = self.update_cache();
                Ok((copy, snapshot))
            },
            Err(error) => Err(error),
        }
    }

    /// The whole snapshot as it is to be written to the cache file, both
    /// fields as currently known.
    pub fn update_cache(&self) -> (snapshot: CacheData)
        ensures
            snapshot@ == self@,
    {
        self.data.clone()
    }
}

/// A warm snapshot needs no second fetch: once a fetch of the statuses has
/// succeeded, every later lookup is a hit that serves what was fetched.
pub proof fn lemma_lookup_hits_after_fetch<E>(before: Snapshot, fetched: Seq<(u32, Seq<char>)>)
    ensures
        before.after_issue_statuses(Ok::<_, E>(fetched)).lookup_issue_statuses() == Some(fetched),
        before.after_issue_statuses(Ok::<_, E>(fetched)).fetches_for_issue_statuses() == 0,
{
}

/// Asking twice fetches once: starting from a snapshot without statuses, the
/// first request takes one fetch, and when that fetch succeeds the second
/// request takes none and serves the same statuses.
pub proof fn lemma_two_requests_fetch_once<E>(cold: Snapshot, fetched: Seq<(u32, Seq<char>)>)
    requires
        cold.issue_statuses is None,
    ensures
        ({
            let warm = cold.after_issue_statuses(Ok::<_, E>(fetched));
            &&& cold.fetches_for_issue_statuses() + warm.fetches_for_issue_statuses() == 1
            &&& warm.lookup_issue_statuses() == Some(fetched)
            &&& warm.after_issue_statuses(Ok::<_, E>(fetched)) == warm
        }),
{
}

/// A field that is populated stays populated: no fetch, failed or not, of
/// either field empties it.
pub proof fn lemma_populated_stays_populated<E>(
    before: Snapshot,
    statuses: Result<Seq<(u32, Seq<char>)>, E>,
    users: Result<Seq<UserView>, E>,
)
    ensures
        before.issue_statuses is Some ==> before.after_issue_statuses(statuses).issue_statuses
            is Some,
        before.issue_statuses is Some ==> before.after_users(users).issue_statuses is Some,
        before.users is Some ==> before.after_issue_statuses(statuses).users is Some,
        before.users is Some ==> before.after_users(users).users is Some,
{
}

/// Failures stay with their field: when the statuses were fetched and a
/// later fetch of the users fails, the statuses are still served as they
/// were fetched, and the snapshot is the one from before the failure.
pub proof fn lemma_failed_users_fetch_keeps_statuses<E>(
    before: Snapshot,
    fetched: Seq<(u32, Seq<char>)>,
    failure: E,
)
    ensures
        ({
            let warm = before.after_issue_statuses(Ok::<_, E>(fetched));
            let after = warm.after_users(Err::<Seq<UserView>, E>(failure));
            after == warm && after.lookup_issue_statuses() == Some(fetched)
        }),
{
}

/// A failed fetch never changes the snapshot.
pub proof fn lemma_failed_fetch_changes_nothing<E>(before: Snapshot, failure: E)
    ensures
        before.after_issue_statuses(Err::<Seq<(u32, Seq<char>)>, E>(failure)) == before,
        before.after_users(Err::<Seq<UserView>, E>(failure)) == before,
{
}

/// A cache opened on a fresh copy of a snapshot holds that snapshot: the
/// same statuses and the same users.
pub proof fn lemma_fresh_reopen_restores(written: Snapshot)
    ensures
        Snapshot::opened(Freshness::Fresh, written) == written,
        Snapshot::opened(Freshness::Fresh, written).lookup_issue_statuses()
            == written.issue_statuses,
        Snapshot::opened(Freshness::Fresh, written).lookup_users() == written.users,
{
}

} // verus!
