use microkv::errors::{ErrorType, KVError};
use microkv::MicroKV;
use release_knock::params::db::{key_flag_from_answer, key_in_db_status, DbKeyFlag, Release, ReleaseDetail};
use release_knock::server::config::Repo;
use release_knock::server::watch::task::tick_schedule;
use release_knock::server::watch::{CheckAction, CheckEvent, CheckState, Worker};

fn detail(tag: &str) -> ReleaseDetail {
    ReleaseDetail {
        release_name: format!("Release {}", tag),
        tag_name: tag.to_string(),
        prerelease: false,
        published_at: "2024-01-02T03:04:05Z".to_string(),
        html_url: format!("https://github.com/o/r/releases/tag/{}", tag),
    }
}

fn worker(db: MicroKV) -> Worker {
    Worker::new(
        db,
        600,
        Repo { name: "o/r".to_string(), url: "https://api.github.com/repos/o/r/releases/latest".to_string() },
        0,
    )
}

#[test]
fn exists_answers_map_to_flags() {
    assert_eq!(key_flag_from_answer(Ok(true)), DbKeyFlag::Exist);
    assert_eq!(key_flag_from_answer(Ok(false)), DbKeyFlag::NotExist);
    assert_eq!(
        key_flag_from_answer(Err(KVError { error: ErrorType::PoisonError, msg: None })),
        DbKeyFlag::FnFail
    );
}

#[test]
fn key_status_follows_the_store() {
    let db = MicroKV::new("release-knock-key-status-test");
    assert_eq!(key_in_db_status(db.clone(), "o/r"), DbKeyFlag::NotExist);
    db.put("o/r", &1u32).unwrap();
    assert_eq!(key_in_db_status(db.clone(), "o/r"), DbKeyFlag::Exist);
    assert_eq!(key_in_db_status(db, "other"), DbKeyFlag::NotExist);
}

#[test]
fn releases_compare_field_by_field() {
    let a = Release::new("u".to_string(), "n".to_string(), detail("v1"));
    let b = a.duplicate();
    assert!(a.same_as(&b));
    let mut c = a.duplicate();
    c.detail.prerelease = true;
    assert!(!a.same_as(&c));
    let d = Release::new("u".to_string(), "n".to_string(), detail("v2"));
    assert!(!a.same_as(&d));
}

#[test]
fn first_release_is_recorded_without_alert() {
    let w = worker(MicroKV::new("release-knock-first-test"));
    let (state, action) = w.start_check(detail("v1"));
    match &action {
        CheckAction::QueryKey(key) => assert_eq!(key, "o/r"),
        other => panic!("unexpected {:?}", other),
    }
    let (state, action) = state.step(CheckEvent::KeyStatus(DbKeyFlag::NotExist));
    match &action {
        CheckAction::Save(key, r) => {
            assert_eq!(key, "o/r");
            assert_eq!(r.name, "o/r");
            assert_eq!(r.url, "https://api.github.com/repos/o/r/releases/latest");
            assert_eq!(r.detail.tag_name, "v1");
        }
        other => panic!("unexpected {:?}", other),
    }
    let (state, action) = state.step(CheckEvent::Saved);
    assert!(matches!(state, CheckState::Done));
    assert!(matches!(action, CheckAction::Finish(Ok(()))));
}

#[test]
fn changed_release_is_alerted_then_recorded() {
    let w = worker(MicroKV::new("release-knock-changed-test"));
    let (state, _) = w.start_check(detail("v2"));
    let (state, action) = state.step(CheckEvent::KeyStatus(DbKeyFlag::Exist));
    match &action {
        CheckAction::LoadStored(key) => assert_eq!(key, "o/r"),
        other => panic!("unexpected {:?}", other),
    }
    let old = Release::new(
        "https://api.github.com/repos/o/r/releases/latest".to_string(),
        "o/r".to_string(),
        detail("v1"),
    );
    let (state, action) = state.step(CheckEvent::Stored(old));
    match &action {
        CheckAction::Notify(r) => assert_eq!(r.detail.tag_name, "v2"),
        other => panic!("unexpected {:?}", other),
    }
    let (state, action) = state.step(CheckEvent::Sent);
    match &action {
        CheckAction::Save(key, r) => {
            assert_eq!(key, "o/r");
            assert_eq!(r.detail.tag_name, "v2");
        }
        other => panic!("unexpected {:?}", other),
    }
    let (_, action) = state.step(CheckEvent::Saved);
    assert!(matches!(action, CheckAction::Finish(Ok(()))));
}

#[test]
fn unchanged_release_does_nothing() {
    let w = worker(MicroKV::new("release-knock-unchanged-test"));
    let (state, _) = w.start_check(detail("v1"));
    let (state, _) = state.step(CheckEvent::KeyStatus(DbKeyFlag::Exist));
    let same = Release::new(
        "https://api.github.com/repos/o/r/releases/latest".to_string(),
        "o/r".to_string(),
        detail("v1"),
    );
    let (state, action) = state.step(CheckEvent::Stored(same));
    assert!(matches!(state, CheckState::Done));
    assert!(matches!(action, CheckAction::Finish(Ok(()))));
}

#[test]
fn failed_lookup_names_the_key() {
    let w = worker(MicroKV::new("release-knock-lookup-test"));
    let (state, _) = w.start_check(detail("v1"));
    let (state, action) = state.step(CheckEvent::KeyStatus(DbKeyFlag::FnFail));
    assert!(matches!(state, CheckState::Done));
    match action {
        CheckAction::Finish(Err(m)) => assert_eq!(m, "Query key: o/r in the db failed."),
        other => panic!("unexpected {:?}", other),
    }
}

#[test]
fn failed_alert_is_not_recorded() {
    let w = worker(MicroKV::new("release-knock-send-fail-test"));
    let (state, _) = w.start_check(detail("v2"));
    let (state, _) = state.step(CheckEvent::KeyStatus(DbKeyFlag::Exist));
    let old = Release::new("x".to_string(), "o/r".to_string(), detail("v1"));
    let (state, _) = state.step(CheckEvent::Stored(old));
    assert!(state.accepts(&CheckEvent::Failed("channel closed".to_string())));
    assert!(!state.accepts(&CheckEvent::Saved));
    let (state, action) = state.step(CheckEvent::Failed("channel closed".to_string()));
    assert!(matches!(state, CheckState::Done));
    match action {
        CheckAction::Finish(Err(m)) => assert_eq!(m, "channel closed"),
        other => panic!("unexpected {:?}", other),
    }
}

#[test]
fn a_tick_retries_once_then_gives_up() {
    let mut w = worker(MicroKV::new("release-knock-retry-test"));
    assert!(w.may_attempt());
    assert_eq!(w.after_attempt(false), Some(600));
    assert_eq!(w.retry, 1);
    assert!(w.may_attempt());
    assert_eq!(w.after_attempt(false), Some(600));
    assert_eq!(w.retry, 2);
    assert!(!w.may_attempt());
}

#[test]
fn a_tick_stops_at_success() {
    let mut w = worker(MicroKV::new("release-knock-success-test"));
    assert_eq!(w.after_attempt(true), None);
    assert_eq!(w.retry, 0);
    w.update_retry_times();
    assert_eq!(w.retry, 1);
}

#[test]
fn ticks_start_after_fifteen_seconds() {
    assert_eq!(tick_schedule(7200), (15, 7200));
}

#[test]
fn the_check_looks_up_the_repository_name() {
    let db = MicroKV::new("release-knock-query-key-test");
    db.put("o/r", &1u32).unwrap();
    let w = worker(db);
    let (_, action) = w.start_check(detail("v1"));
    match action {
        CheckAction::QueryKey(key) => {
            assert_eq!(key, w.repo.name);
            assert_eq!(w.query_key(&key), DbKeyFlag::Exist);
        }
        other => panic!("unexpected {:?}", other),
    }
    assert_eq!(w.query_key(&w.repo.url), DbKeyFlag::NotExist);
}
