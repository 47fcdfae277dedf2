//! One watcher per repository, and the decisions of one release check.
//!
//! A check fetches the latest release of the repository (outside this crate),
//! then walks the store and the alert channel with the state machine
//! [`check_step`]: the first release seen of a repository is recorded
//! silently; a release that differs from the recorded one is sent to the
//! alert channel and then recorded; an unchanged release is left alone.

pub mod task;

use vstd::prelude::*;
use microkv::MicroKV;
use crate::params::db::{DbKeyFlag, Release, ReleaseDetail, ReleaseView, key_in_db_status};
use crate::server::config::Repo;

verus! {

/// Gives `MicroKV`'s `Clone` a contract: nothing is stated of the copy, a
/// handle onto the same shared store.
pub assume_specification[ <MicroKV as Clone>::clone ](db: &MicroKV) -> MicroKV;

/// The watcher of one repository.
#[derive(Clone)]
pub struct Worker {
    /// Seconds to wait after a failed check.
    pub retry_interval: u64,
    pub repo: Repo,
    /// The release store.
    pub db: MicroKV,
    /// Failed attempts in the current tick.
    pub retry: u8,
}

/// Where a release check stands.
#[derive(Debug)]
pub enum CheckState {
    /// The store was asked whether the repository has a record.
    AwaitKeyStatus(Release),
    /// The recorded release was asked for.
    AwaitStored(Release),
    /// The new release was handed to the alert channel.
    AwaitSent(Release),
    /// The new release was handed to the store.
    AwaitSaved(Release),
    /// The check is over.
    Done,
}

/// What the outside world answered to the last action.
#[derive(Debug)]
pub enum CheckEvent {
    /// The answer of `key_in_db_status`.
    KeyStatus(DbKeyFlag),
    /// The recorded release.
    Stored(Release),
    /// The release is in the alert channel.
    Sent,
    /// The release is recorded.
    Saved,
    /// The last action failed, with this error text.
    Failed(String),
}

/// What to do next.
#[derive(Debug)]
pub enum CheckAction {
    /// Look this key up in the store.
    QueryKey(String),
    /// Load the release recorded under this key.
    LoadStored(String),
    /// Send this release to the alert channel.
    Notify(Release),
    /// Record the release under the key.
    Save(String, Release),
    /// The check is over, with this outcome.
    Finish(Result<(), String>),
}

/// Model of a [`CheckState`].
pub enum CheckStateView {
    AwaitKeyStatus(ReleaseView),
    AwaitStored(ReleaseView),
    AwaitSent(ReleaseView),
    AwaitSaved(ReleaseView),
    Done,
}

/// Model of a [`CheckEvent`].
pub enum CheckEventView {
    KeyStatus(DbKeyFlag),
    Stored(ReleaseView),
    Sent,
    Saved,
    Failed(Seq<char>),
}

/// Model of a [`CheckAction`].
pub enum CheckActionView {
    QueryKey(Seq<char>),
    LoadStored(Seq<char>),
    Notify(ReleaseView),
    Save(Seq<char>, ReleaseView),
    Finish(Result<(), Seq<char>>),
}

impl View for CheckState {
    type V = CheckStateView;

    open spec fn view(&self) -> CheckStateView {
        match self {
            CheckState::AwaitKeyStatus(r) => CheckStateView::AwaitKeyStatus(r@),
            CheckState::AwaitStored(r) => CheckStateView::AwaitStored(r@),
            CheckState::AwaitSent(r) => CheckStateView::AwaitSent(r@),
            CheckState::AwaitSaved(r) => CheckStateView::AwaitSaved(r@),
            CheckState::Done => CheckStateView::Done,
        }
    }
}

impl View for CheckEvent {
    type V = CheckEventView;

    open spec fn view(&self) -> CheckEventView {
        match self {
            CheckEvent::KeyStatus(f) => CheckEventView::KeyStatus(*f),
            CheckEvent::Stored(r) => CheckEventView::Stored(r@),
            CheckEvent::Sent => CheckEventView::Sent,
            CheckEvent::Saved => CheckEventView::Saved,
            CheckEvent::Failed(m) => CheckEventView::Failed(m@),
        }
    }
}

impl View for CheckAction {
    type V = CheckActionView;

    open spec fn view(&self) -> CheckActionView {
        match self {
            CheckAction::QueryKey(k) => CheckActionView::QueryKey(k@),
            CheckAction::LoadStored(k) => CheckActionView::LoadStored(k@),
            CheckAction::Notify(r) => CheckActionView::Notify(r@),
            CheckAction::Save(k, r) => CheckActionView::Save(k@, r@),
            CheckAction::Finish(Ok(())) => CheckActionView::Finish(Ok(())),
            CheckAction::Finish(Err(m)) => CheckActionView::Finish(Err(m@)),
        }
    }
}

/// The error text when the store could not be asked for the key `name`.
pub open spec fn query_failed_message(name: Seq<char>) -> Seq<char> {
    "Query key: "@ + name + " in the db failed."@
}

/// Whether `e` answers what a check in state `s` waits for.
pub open spec fn accepts(s: CheckStateView, e: CheckEventView) -> bool {
    match s {
        CheckStateView::AwaitKeyStatus(_) => e is KeyStatus,
        CheckStateView::AwaitStored(_) => e is Stored || e is Failed,
        CheckStateView::AwaitSent(_) => e is Sent || e is Failed,
        CheckStateView::AwaitSaved(_) => e is Saved || e is Failed,
        CheckStateView::Done => false,
    }
}

/// One step of a release check: the next state and the next action, for
/// an event that the state accepts.
pub open spec fn check_step(s: CheckStateView, e: CheckEventView) -> (CheckStateView, CheckActionView) {
    match s {
        CheckStateView::AwaitKeyStatus(r) => match e {
            CheckEventView::KeyStatus(DbKeyFlag::Exist) => (
                CheckStateView::AwaitStored(r),
                CheckActionView::LoadStored(r.name),
            ),
            CheckEventView::KeyStatus(DbKeyFlag::NotExist) => (
                CheckStateView::AwaitSaved(r),
                CheckActionView::Save(r.name, r),
            ),
            _ => (
                CheckStateView::Done,
                CheckActionView::Finish(Err(query_failed_message(r.name))),
            ),
        },
        CheckStateView::AwaitStored(r) => match e {
            CheckEventView::Stored(old) => if old != r {
                (CheckStateView::AwaitSent(r), CheckActionView::Notify(r))
            } else {
                (CheckStateView::Done, CheckActionView::Finish(Ok(())))
            },
            CheckEventView::Failed(m) => (CheckStateView::Done, CheckActionView::Finish(Err(m))),
            _ => (CheckStateView::Done, CheckActionView::Finish(Err(Seq::empty()))),
        },
        CheckStateView::AwaitSent(r) => match e {
            CheckEventView::Sent => (CheckStateView::AwaitSaved(r), CheckActionView::Save(r.name, r)),
            CheckEventView::Failed(m) => (CheckStateView::Done, CheckActionView::Finish(Err(m))),
            _ => (CheckStateView::Done, CheckActionView::Finish(Err(Seq::empty()))),
        },
        CheckStateView::AwaitSaved(r) => match e {
            CheckEventView::Saved => (CheckStateView::Done, CheckActionView::Finish(Ok(()))),
            CheckEventView::Failed(m) => (CheckStateView::Done, CheckActionView::Finish(Err(m))),
            _ => (CheckStateView::Done, CheckActionView::Finish(Err(Seq::empty()))),
        },
        CheckStateView::Done => (CheckStateView::Done, CheckActionView::Finish(Err(Seq::empty()))),
    }
}

/// The error text when the store could not be asked for the key `name`.
fn query_failed(name: &String) -> (m: String)
    ensures
        m@ == query_failed_message(name@),
{
    let mut m = String::from_str("Query key: ");
    m.append(name.as_str());
    m.append(" in the db failed.");
    m
}

impl CheckState {
    /// Whether `event` answers what this check waits for.
    pub fn accepts(&self, event: &CheckEvent) -> (ok: bool)
        ensures
            ok == accepts(self@, event@),
    {
        match self {
            CheckState::AwaitKeyStatus(_) => matches!(event, CheckEvent::KeyStatus(_)),
            CheckState::AwaitStored(_) => matches!(event, CheckEvent::Stored(_) | CheckEvent::Failed(_)),
            CheckState::AwaitSent(_) => matches!(event, CheckEvent::Sent | CheckEvent::Failed(_)),
            CheckState::AwaitSaved(_) => matches!(event, CheckEvent::Saved | CheckEvent::Failed(_)),
            CheckState::Done => false,
        }
    }

    /// Takes one step of the check: given the answer to the last action,
    /// the next state and the next action.
    pub fn step(self, event: CheckEvent) -> (res: (CheckState, CheckAction))
        requires
            accepts(self@, event@),
        ensures
            (res.0@, res.1@) == check_step(self@, event@),
    {
        match self {
            CheckState::AwaitKeyStatus(r) => match event {
                CheckEvent::KeyStatus(DbKeyFlag::Exist) => {
                    let key = r.name.clone();
                    (CheckState::AwaitStored(r), CheckAction::LoadStored(key))
                },
                CheckEvent::KeyStatus(DbKeyFlag::NotExist) => {
                    let saved = r.duplicate();
                    let key = r.name.clone();
                    (CheckState::AwaitSaved(r), CheckAction::Save(key, saved))
                },
                _ => {
                    let m = query_failed(&r.name);
                    (CheckState::Done, CheckAction::Finish(Err(m)))
                },
            },
            CheckState::AwaitStored(r) => match event {
                CheckEvent::Stored(old) => {
                    if !old.same_as(&r) {
                        let sent = r.duplicate();
                        (CheckState::AwaitSent(r), CheckAction::Notify(sent))
                    } else {
                        (CheckState::Done, CheckAction::Finish(Ok(())))
                    }
                },
                CheckEvent::Failed(m) => (CheckState::Done, CheckAction::Finish(Err(m))),
                _ => (CheckState::Done, CheckAction::Finish(Err(String::new()))),
            },
            CheckState::AwaitSent(r) => match event {
                CheckEvent::Sent => {
                    let saved = r.duplicate();
                    let key = r.name.clone();
                    (CheckState::AwaitSaved(r), CheckAction::Save(key, saved))
                },
                CheckEvent::Failed(m) => (CheckState::Done, CheckAction::Finish(Err(m))),
                _ => (CheckState::Done, CheckAction::Finish(Err(String::new()))),
            },
            CheckState::AwaitSaved(r) => match event {
                CheckEvent::Saved => (CheckState::Done, CheckAction::Finish(Ok(()))),
                CheckEvent::Failed(m) => (CheckState::Done, CheckAction::Finish(Err(m))),
                _ => (CheckState::Done, CheckAction::Finish(Err(String::new()))),
            },
            CheckState::Done => (CheckState::Done, CheckAction::Finish(Err(String::new()))),
        }
    }
}

/// The release that a check of `repo` works with, for the fetched `detail`.
pub open spec fn fetched_release(repo: Repo, detail: ReleaseDetail) -> ReleaseView {
    ReleaseView { url: repo.url@, name: repo.name@, detail: detail@ }
}

impl Worker {
    /// A watcher of `repo`.
    pub fn new(db: MicroKV, retry_interval: u64, repo: Repo, retry: u8) -> (w: Worker)
        ensures
            w.db == db,
            w.retry_interval == retry_interval,
            w.repo == repo,
            w.retry == retry,
    {
        Worker { retry_interval, repo, db, retry }
    }

    /// Counts one more failed attempt.
    pub fn update_retry_times(&mut self)
        requires
            old(self).retry < u8::MAX,
        ensures
            final(self).retry == old(self).retry + 1,
            final(self).retry_interval == old(self).retry_interval,
            final(self).repo == old(self).repo,
            final(self).db == old(self).db,
    {
        self.retry = self.retry + 1;
    }

    /// Starts a check of the freshly fetched `detail`: the release to record
    /// is the repository's URL and name with `detail`, and the first action
    /// is to look the repository up in the store.
    pub fn start_check(&self, detail: ReleaseDetail) -> (res: (CheckState, CheckAction))
        ensures
            res.0@ == CheckStateView::AwaitKeyStatus(fetched_release(self.repo, detail)),
            res.1@ == CheckActionView::QueryKey(self.repo.name@),
    {
        let release = Release::new(self.repo.url.clone(), self.repo.name.clone(), detail);
        (CheckState::AwaitKeyStatus(release), CheckAction::QueryKey(self.repo.name.clone()))
    }

    /// Looks `key` up in the watcher's store: the answer to a
    /// `QueryKey(key)` action, whose key the check fixes to the repository's
    /// name (see [`check_step`] and [`Worker::start_check`]).
    pub fn query_key(&self, key: &str) -> (flag: DbKeyFlag) {
        key_in_db_status(self.db.clone(), key)
    }
}

/// How a store with the contents `store` and an alert channel that never
/// fail answer the action `a`: the store's contents afterwards, the
/// releases sent to the alert channel, and the event handed back to the
/// check. The store is asked, read and written under the key that the
/// action names.
pub open spec fn faithful_answer(
    store: Map<Seq<char>, ReleaseView>,
    a: CheckActionView,
) -> (Map<Seq<char>, ReleaseView>, Seq<ReleaseView>, CheckEventView) {
    match a {
        CheckActionView::QueryKey(key) => (
            store,
            Seq::empty(),
            CheckEventView::KeyStatus(
                if store.contains_key(key) { DbKeyFlag::Exist } else { DbKeyFlag::NotExist },
            ),
        ),
        CheckActionView::LoadStored(key) => (store, Seq::empty(), CheckEventView::Stored(store[key])),
        CheckActionView::Notify(r) => (store, seq![r], CheckEventView::Sent),
        CheckActionView::Save(key, r) => (store.insert(key, r), Seq::empty(), CheckEventView::Saved),
        CheckActionView::Finish(_) => (store, Seq::empty(), CheckEventView::Saved),
    }
}

/// Runs a check from state `s` with pending action `a` against a store and
/// an alert channel that never fail, for at most `fuel` actions: the
/// store's contents at the end, the releases alerted, and the outcome
/// (`None` when the fuel ran out first).
pub open spec fn run_check(
    store: Map<Seq<char>, ReleaseView>,
    s: CheckStateView,
    a: CheckActionView,
    fuel: nat,
) -> (Map<Seq<char>, ReleaseView>, Seq<ReleaseView>, Option<Result<(), Seq<char>>>)
    decreases fuel,
{
    match a {
        CheckActionView::Finish(res) => (store, Seq::empty(), Some(res)),
        _ => if fuel == 0 {
            (store, Seq::empty(), None)
        } else {
            let (store1, sent1, e) = faithful_answer(store, a);
            let (s2, a2) = check_step(s, e);
            let (store2, sent2, res) = run_check(store1, s2, a2, (fuel - 1) as nat);
            (store2, sent1 + sent2, res)
        },
    }
}

/// A release check that meets no failure ends well within four actions and
/// leaves the fetched release `r` recorded under the repository's name,
/// every other record as it was. It alerts `r`, once, exactly when a
/// different release was recorded before: the first release seen of a
/// repository is recorded silently, and an unchanged one alerts nothing.
pub proof fn lemma_check_records_and_alerts_changes(store: Map<Seq<char>, ReleaseView>, r: ReleaseView)
    ensures
        run_check(store, CheckStateView::AwaitKeyStatus(r), CheckActionView::QueryKey(r.name), 4)
            == (
            store.insert(r.name, r),
            if store.contains_key(r.name) && store[r.name] != r {
                seq![r]
            } else {
                Seq::<ReleaseView>::empty()
            },
            Some(Ok::<(), Seq<char>>(())),
        ),
{
    reveal_with_fuel(run_check, 5);
    let key = r.name;
    if store.contains_key(key) {
        if store[key] != r {
            assert(Seq::<ReleaseView>::empty() + (seq![r] + (Seq::<ReleaseView>::empty()
                + Seq::<ReleaseView>::empty())) =~= seq![r]);
        } else {
            assert(store.insert(key, r) =~= store);
            assert(Seq::<ReleaseView>::empty() + (Seq::<ReleaseView>::empty()
                + Seq::<ReleaseView>::empty()) =~= Seq::<ReleaseView>::empty());
        }
    } else {
        assert(Seq::<ReleaseView>::empty() + (Seq::<ReleaseView>::empty()
            + Seq::<ReleaseView>::empty()) =~= Seq::<ReleaseView>::empty());
    }
}

/// The check that a watcher starts on a fetched `detail` records it under
/// the repository's name: started as [`Worker::start_check`] starts it, and
/// meeting no failure, it ends well, the store holds the release made of the
/// repository's URL and name and `detail` under that name, and it is
/// alerted exactly when a different release was recorded there before.
pub proof fn lemma_worker_check_uses_repo_name(
    store: Map<Seq<char>, ReleaseView>,
    repo: Repo,
    detail: ReleaseDetail,
)
    ensures
        ({
            let r = fetched_release(repo, detail);
            run_check(
                store,
                CheckStateView::AwaitKeyStatus(r),
                CheckActionView::QueryKey(repo.name@),
                4,
            ) == (
                store.insert(repo.name@, r),
                if store.contains_key(repo.name@) && store[repo.name@] != r {
                    seq![r]
                } else {
                    Seq::<ReleaseView>::empty()
                },
                Some(Ok::<(), Seq<char>>(())),
            )
        }),
{
    lemma_check_records_and_alerts_changes(store, fetched_release(repo, detail));
}

/// The action a check in state `s` has pending: a check waiting on the
/// store's key lookup, the stored record, the alert channel or the store's
/// write has asked for exactly that, under the release's name, and a
/// finished check asks for nothing more.
pub open spec fn pending(s: CheckStateView, a: CheckActionView) -> bool {
    match s {
        CheckStateView::AwaitKeyStatus(r) => a == CheckActionView::QueryKey(r.name),
        CheckStateView::AwaitStored(r) => a == CheckActionView::LoadStored(r.name),
        CheckStateView::AwaitSent(r) => a == CheckActionView::Notify(r),
        CheckStateView::AwaitSaved(r) => a == CheckActionView::Save(r.name, r),
        CheckStateView::Done => a is Finish,
    }
}

/// A check never refuses an answer it asked for. A check starts with its
/// key lookup pending; whatever a store and channel that never fail answer
/// to a pending action, the state that issued it accepts the answer, and so
/// does it a report that the action failed (the key lookup reports failure
/// as a flag); and the step on such an answer leaves the next action pending
/// in the next state. In particular a check waiting on the stored record
/// accepts every release the store hands back, the same as the fetched one
/// or another.
pub proof fn lemma_answers_are_accepted(
    store: Map<Seq<char>, ReleaseView>,
    s: CheckStateView,
    a: CheckActionView,
    m: Seq<char>,
    r: ReleaseView,
)
    ensures
        pending(CheckStateView::AwaitKeyStatus(r), CheckActionView::QueryKey(r.name)),
        forall|x: ReleaseView|
            #[trigger] accepts(CheckStateView::AwaitStored(r), CheckEventView::Stored(x)),
        forall|f: DbKeyFlag|
            #[trigger] accepts(CheckStateView::AwaitKeyStatus(r), CheckEventView::KeyStatus(f)),
        pending(s, a) && !(a is Finish) ==> {
            let e = faithful_answer(store, a).2;
            &&& accepts(s, e)
            &&& pending(check_step(s, e).0, check_step(s, e).1)
        },
        pending(s, a) && !(a is Finish) && !(s is AwaitKeyStatus) ==> {
            let e = CheckEventView::Failed(m);
            &&& accepts(s, e)
            &&& pending(check_step(s, e).0, check_step(s, e).1)
        },
        pending(s, a) && s is AwaitKeyStatus ==> forall|f: DbKeyFlag|
            pending(
                #[trigger] check_step(s, CheckEventView::KeyStatus(f)).0,
                check_step(s, CheckEventView::KeyStatus(f)).1,
            ),
{
}

/// A failure ends the check at once: whatever the check waited for, a
/// failed action is answered with the end of the check and the failure's
/// own error text, so nothing is alerted or recorded after it. In
/// particular a release whose alert could not be sent is not recorded, and
/// the next check finds it new again.
pub proof fn lemma_failure_ends_check(s: CheckStateView, m: Seq<char>)
    requires
        accepts(s, CheckEventView::Failed(m)),
    ensures
        check_step(s, CheckEventView::Failed(m)) == (
            CheckStateView::Done,
            CheckActionView::Finish(Err::<(), Seq<char>>(m)),
        ),
{
}

/// A store that cannot be asked about the repository ends the check with
/// the error naming the repository, before anything is alerted or recorded.
pub proof fn lemma_failed_lookup_ends_check(r: ReleaseView)
    ensures
        check_step(CheckStateView::AwaitKeyStatus(r), CheckEventView::KeyStatus(DbKeyFlag::FnFail))
            == (
            CheckStateView::Done,
            CheckActionView::Finish(Err::<(), Seq<char>>(query_failed_message(r.name))),
        ),
{
}

} // verus!
