//! The release record, its mathematical value, and what a store lookup means.

use vstd::prelude::*;

verus! {

/// Mathematical value of a [`ReleaseDetail`].
pub struct ReleaseDetailView {
    pub release_name: Seq<char>,
    pub tag_name: Seq<char>,
    pub prerelease: bool,
    pub published_at: Seq<char>,
    pub html_url: Seq<char>,
}

/// Mathematical value of a [`Release`].
pub struct ReleaseView {
    pub url: Seq<char>,
    pub name: Seq<char>,
    pub detail: ReleaseDetailView,
}

/// The fields of an upstream release that tell one release from another.
#[derive(Debug)]
pub struct ReleaseDetail {
    pub release_name: String,
    pub tag_name: String,
    pub prerelease: bool,
    pub published_at: String,
    pub html_url: String,
}

/// The latest release seen for one repository: the unit that is stored and
/// that is sent to the alert providers.
#[derive(Debug)]
pub struct Release {
    pub url: String,
    pub name: String,
    pub detail: ReleaseDetail,
}

impl View for ReleaseDetail {
    type V = ReleaseDetailView;

    open spec fn view(&self) -> ReleaseDetailView {
        ReleaseDetailView {
            release_name: self.release_name@,
            tag_name: self.tag_name@,
            prerelease: self.prerelease,
            published_at: self.published_at@,
            html_url: self.html_url@,
        }
    }
}

impl View for Release {
    type V = ReleaseView;

    open spec fn view(&self) -> ReleaseView {
        ReleaseView { url: self.url@, name: self.name@, detail: self.detail@ }
    }
}

impl Clone for ReleaseDetail {
    fn clone(&self) -> (copy: Self)
        ensures
            copy == *self,
    {
        ReleaseDetail {
            release_name: self.release_name.clone(),
            tag_name: self.tag_name.clone(),
            prerelease: self.prerelease,
            published_at: self.published_at.clone(),
            html_url: self.html_url.clone(),
        }
    }
}

impl Clone for Release {
    fn clone(&self) -> (copy: Self)
        ensures
            copy == *self,
    {
        Release { url: self.url.clone(), name: self.name.clone(), detail: self.detail.clone() }
    }
}

impl PartialEq for ReleaseDetail {
    fn eq(&self, other: &Self) -> (same: bool) {
        self.release_name == other.release_name && self.tag_name == other.tag_name
            && self.prerelease == other.prerelease && self.published_at == other.published_at
            && self.html_url == other.html_url
    }
}

impl vstd::std_specs::cmp::PartialEqSpecImpl for ReleaseDetail {
    open spec fn obeys_eq_spec() -> bool {
        true
    }

    open spec fn eq_spec(&self, other: &Self) -> bool {
        self@ == other@
    }
}

impl PartialEq for Release {
    fn eq(&self, other: &Self) -> (same: bool) {
        self.url == other.url && self.name == other.name && self.detail == other.detail
    }
}

impl vstd::std_specs::cmp::PartialEqSpecImpl for Release {
    open spec fn obeys_eq_spec() -> bool {
        true
    }

    open spec fn eq_spec(&self, other: &Self) -> bool {
        self@ == other@
    }
}

impl Release {
    /// Puts a release together from the repository it belongs to and the
    /// detail that was fetched for it.
    pub fn new(url: String, name: String, detail: ReleaseDetail) -> (release: Release)
        ensures
            release.url == url,
            release.name == name,
            release.detail == detail,
    {
        Release { url, name, detail }
    }
}

/// A failure of the release store itself: the store could not answer, which
/// is not the same as answering that a key is absent.
#[derive(Clone, Copy, Debug, PartialEq, Eq, Structural)]
pub struct StoreError;

/// What the store says of a key.
#[derive(Clone, Copy, Debug, PartialEq, Eq, Structural)]
pub enum KeyFlag {
    /// A release is stored under the key.
    Exist,
    /// Nothing is stored under the key: the repository was never observed.
    NotExist,
    /// The store failed to answer.
    FnFail,
}

/// The flag that stands for the answer to an existence query.
pub open spec fn key_flag(probe: Result<bool, StoreError>) -> KeyFlag {
    match probe {
        Ok(true) => KeyFlag::Exist,
        Ok(false) => KeyFlag::NotExist,
        Err(_) => KeyFlag::FnFail,
    }
}

/// Classifies the answer of the store to "is there an entry for this key".
pub fn key_in_db_status(probe: Result<bool, StoreError>) -> (flag: KeyFlag)
    ensures
        flag == key_flag(probe),
{
    match probe {
        Err(_) => KeyFlag::FnFail,
        Ok(found) => {
            if found {
                KeyFlag::Exist
            } else {
                KeyFlag::NotExist
            }
        },
    }
}

} // verus!
