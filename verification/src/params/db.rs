//! The release record kept per repository, and the key lookup in the store.

use vstd::prelude::*;
use microkv::MicroKV;
use microkv::errors::KVError;

verus! {

/// `microkv::MicroKV`, the key-value store that keeps the last known
/// release of each repository. Opaque here.
#[verifier::external_type_specification]
#[verifier::external_body]
pub struct ExMicroKv(MicroKV);

/// `microkv::errors::KVError`, the error of every store operation. Opaque here.
#[verifier::external_type_specification]
#[verifier::external_body]
pub struct ExKvError(KVError);

/// What GitHub reports of the latest release of a repository.
#[derive(Debug)]
pub struct ReleaseDetail {
    pub release_name: String,
    pub tag_name: String,
    pub prerelease: bool,
    pub published_at: String,
    pub html_url: String,
}

/// Mathematical model of a [`ReleaseDetail`].
pub struct ReleaseDetailView {
    pub release_name: Seq<char>,
    pub tag_name: Seq<char>,
    pub prerelease: bool,
    pub published_at: Seq<char>,
    pub html_url: Seq<char>,
}

impl View for ReleaseDetail {
    type V = ReleaseDetailView;

    open spec fn view(&self) -> ReleaseDetailView {
        ReleaseDetailView {
            release_name: self.release_name@,
            tag_name: self.tag_name@,
            prerelease: self.prerelease,
            published_at: self.published_at@,
            html_url: self.html_url@,
        }
    }
}

/// The latest release of a watched repository, as stored and as alerted.
#[derive(Debug)]
pub struct Release {
    pub url: String,
    pub name: String,
    pub detail: ReleaseDetail,
}

/// Mathematical model of a [`Release`].
pub struct ReleaseView {
    pub url: Seq<char>,
    pub name: Seq<char>,
    pub detail: ReleaseDetailView,
}

impl View for Release {
    type V = ReleaseView;

    open spec fn view(&self) -> ReleaseView {
        ReleaseView { url: self.url@, name: self.name@, detail: self.detail@ }
    }
}

impl ReleaseDetail {
    /// A field-by-field copy.
    pub fn duplicate(&self) -> (res: ReleaseDetail)
        ensures
            res@ == self@,
    {
        ReleaseDetail {
            release_name: self.release_name.clone(),
            tag_name: self.tag_name.clone(),
            prerelease: self.prerelease,
            published_at: self.published_at.clone(),
            html_url: self.html_url.clone(),
        }
    }

    /// Whether the two details agree on every field.
    pub fn same_as(&self, other: &ReleaseDetail) -> (res: bool)
        ensures
            res == (self@ == other@),
    {
        self.release_name == other.release_name && self.tag_name == other.tag_name
            && self.prerelease == other.prerelease && self.published_at == other.published_at
            && self.html_url == other.html_url
    }
}

impl Release {
    /// A release of the repository `name` at `url`.
    pub fn new(url: String, name: String, detail: ReleaseDetail) -> (res: Release)
        ensures
            res.url == url,
            res.name == name,
            res.detail == detail,
    {
        Release { url, name, detail }
    }

    /// A field-by-field copy.
    pub fn duplicate(&self) -> (res: Release)
        ensures
            res@ == self@,
    {
        Release { url: self.url.clone(), name: self.name.clone(), detail: self.detail.duplicate() }
    }

    /// Whether the two releases agree on every field (the record's `==`).
    pub fn same_as(&self, other: &Release) -> (res: bool)
        ensures
            res == (self@ == other@),
    {
        self.url == other.url && self.name == other.name && self.detail.same_as(&other.detail)
    }
}

/// Whether a key is present in the release store.
#[derive(Debug, Clone, Copy, PartialEq, Eq, Structural)]
pub enum DbKeyFlag {
    Exist,
    NotExist,
    FnFail,
}

/// The flag that an answer of `MicroKV::exists` stands for.
pub open spec fn flag_of_answer(answer: Result<bool, KVError>) -> DbKeyFlag {
    match answer {
        Ok(true) => DbKeyFlag::Exist,
        Ok(false) => DbKeyFlag::NotExist,
        Err(_) => DbKeyFlag::FnFail,
    }
}

/// Classifies an answer of `MicroKV::exists`: a failed lookup is
/// [`DbKeyFlag::FnFail`], otherwise the key is there or not.
pub fn key_flag_from_answer(answer: Result<bool, KVError>) -> (flag: DbKeyFlag)
    ensures
        flag == flag_of_answer(answer),
{
    match answer {
        Err(_) => DbKeyFlag::FnFail,
        Ok(flag) => {
            if flag {
                DbKeyFlag::Exist
            } else {
                DbKeyFlag::NotExist
            }
        },
    }
}

/// Calls `MicroKV::exists(key)` on `db`.
///
/// Nothing is stated of the answer: it depends on the contents of the store
/// shared behind `db`, which every clone of the handle reads and changes,
/// so it is no function of the arguments.
#[verifier::external_body]
fn kv_exists(db: &MicroKV, key: &str) -> Result<bool, KVError> {
    db.exists(key)
}

/// Looks `key` up in the store: `Exist` or `NotExist` after a lookup that
/// worked, `FnFail` when the store could not be read.
///
/// The flag is [`key_flag_from_answer`] of what `MicroKV::exists` answered;
/// which answer that is, is not stated (see `kv_exists`).
pub fn key_in_db_status(db: MicroKV, key: &str) -> (flag: DbKeyFlag) {
    let answer = kv_exists(&db, key);
    key_flag_from_answer(answer)
}

} // verus!
