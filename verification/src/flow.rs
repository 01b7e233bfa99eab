//! Installer front-end flow state: wizard pages and the release browser.
//!
//! The browser keeps the paged list of releases the user picks versions
//! from. Fetching a page is the caller's part; every state change — what a
//! fetch clears, how a loaded page extends the list, when the page counter
//! reverts — is decided here.

use vstd::pervasive::VecAdditionalExecFns;
use vstd::prelude::*;

use crate::error::InstallerError;
use crate::release::GitHubRelease;

verus! {

/// The wizard's pages, in the full flow.
#[derive(Debug, Clone, Copy, PartialEq, Eq, Structural)]
pub enum InstallerPage {
    /// Greeting and overview.
    Welcome,
    /// License agreement.
    License,
    /// Install path selection.
    PathSelection,
    /// Component selection.
    Components,
    /// Installation in progress.
    Installation,
    /// Installation finished.
    Complete,
}

/// The version-selection flow's pages.
#[derive(Debug, Clone, Copy, PartialEq, Eq, Structural)]
pub enum Page {
    /// Greeting.
    Welcome,
    /// Release selection.
    VersionSelection,
    /// Installation in progress.
    Installing,
    /// Installation finished.
    Complete,
}

/// How many releases one page of the listing holds.
pub const RELEASES_PAGE_SIZE: usize = 30;

/// One selectable release in the browser.
#[derive(Debug, Clone)]
pub struct ReleaseInfo {
    /// The release's tag.
    pub tag_name: String,
    /// The release's display name.
    pub name: String,
    /// Whether the user selected it for installation.
    pub selected: bool,
}

impl ReleaseInfo {
    /// The browser entry for a fetched release, initially unselected.
    pub fn from_release(release: &GitHubRelease) -> (r: ReleaseInfo)
        ensures
            r.tag_name == release.tag_name,
            r.name == release.name,
            !r.selected,
    {
        ReleaseInfo {
            tag_name: release.tag_name.clone(),
            name: release.name.clone(),
            selected: false,
        }
    }
}

/// The paged release listing and its loading state.
#[derive(Debug, Clone)]
pub struct ReleaseBrowser {
    /// The releases fetched so far, in listing order.
    pub releases: Vec<ReleaseInfo>,
    /// A first-page fetch is in flight.
    pub loading_releases: bool,
    /// A further page is in flight.
    pub loading_more: bool,
    /// The 1-based number of the last page requested; 0 before any fetch.
    pub current_releases_page: u32,
    /// Whether the listing may hold further pages.
    pub has_more_releases: bool,
}

impl ReleaseBrowser {
    /// An empty browser: nothing fetched, nothing in flight.
    pub fn new() -> (r: ReleaseBrowser)
        ensures
            r.releases@.len() == 0,
            !r.loading_releases,
            !r.loading_more,
            r.current_releases_page == 0,
            r.has_more_releases,
    {
        ReleaseBrowser {
            releases: Vec::new(),
            loading_releases: false,
            loading_more: false,
            current_releases_page: 0,
            has_more_releases: true,
        }
    }

    /// Begins fetching the first page: the listing is cleared and the page
    /// counter restarts at 1.
    pub fn start_fetch(&mut self)
        ensures
            final(self).loading_releases,
            final(self).current_releases_page == 1,
            final(self).releases@.len() == 0,
            final(self).loading_more == old(self).loading_more,
            final(self).has_more_releases == old(self).has_more_releases,
    {
        self.loading_releases = true;
        self.current_releases_page = 1;
        self.releases.clear();
    }

    /// Applies a first-page fetch's result: a loaded page replaces the
    /// listing and a full page means more may follow; a failed fetch leaves
    /// the listing as it was. Either way the fetch is no longer in flight.
    pub fn finish_fetch(&mut self, result: Result<Vec<ReleaseInfo>, InstallerError>)
        ensures
            !final(self).loading_releases,
            final(self).loading_more == old(self).loading_more,
            final(self).current_releases_page == old(self).current_releases_page,
            result matches Ok(list) ==> (final(self).releases@ == list@ && final(self).has_more_releases == (list@.len() >= RELEASES_PAGE_SIZE)),
            result is Err ==> (final(self).releases@ == old(self).releases@ && final(self).has_more_releases == old(self).has_more_releases),
    {
        match result {
            Ok(list) => {
                let full = list.len() >= RELEASES_PAGE_SIZE;
                self.releases = list;
                self.has_more_releases = full;
            },
            Err(_) => {},
        }
        self.loading_releases = false;
    }

    /// Begins fetching the next page, unless one is already in flight or
    /// the listing is known to be exhausted. Returns whether a fetch was
    /// started; when it was, the page counter has moved to the new page.
    pub fn start_load_more(&mut self) -> (started: bool)
        requires
            old(self).current_releases_page < u32::MAX,
        ensures
            started == (!old(self).loading_more && old(self).has_more_releases),
            started ==> (final(self).loading_more && final(self).current_releases_page == old(self).current_releases_page + 1),
            !started ==> *final(self) == *old(self),
            final(self).releases@ == old(self).releases@,
            final(self).loading_releases == old(self).loading_releases,
            final(self).has_more_releases == old(self).has_more_releases,
    {
        if self.loading_more || !self.has_more_releases {
            return false;
        }
        self.loading_more = true;
        self.current_releases_page = self.current_releases_page + 1;
        true
    }

    /// Applies a next-page fetch's result: a loaded page extends the
    /// listing; a failed fetch reverts the page counter. Either way the
    /// fetch is no longer in flight.
    pub fn finish_load_more(&mut self, result: Result<Vec<ReleaseInfo>, InstallerError>)
        requires
            old(self).current_releases_page > 0,
        ensures
            !final(self).loading_more,
            final(self).loading_releases == old(self).loading_releases,
            result matches Ok(list) ==> (final(self).releases@ == old(self).releases@ + list@
                && final(self).has_more_releases == (list@.len() >= RELEASES_PAGE_SIZE) && final(self).current_releases_page == old(self).current_releases_page),
            result is Err ==> (final(self).releases@ == old(self).releases@ && final(self).has_more_releases == old(self).has_more_releases && final(self).current_releases_page == old(self).current_releases_page - 1),
    {
        match result {
            Ok(list) => {
                let full = list.len() >= RELEASES_PAGE_SIZE;
                let mut list = list;
                self.releases.append(&mut list);
                self.has_more_releases = full;
            },
            Err(_) => {
                self.current_releases_page = self.current_releases_page - 1;
            },
        }
        self.loading_more = false;
    }

    /// Flips whether the release at `index` is selected; an out-of-range
    /// index changes nothing.
    pub fn toggle_release(&mut self, index: usize)
        ensures
            final(self).loading_releases == old(self).loading_releases,
            final(self).loading_more == old(self).loading_more,
            final(self).current_releases_page == old(self).current_releases_page,
            final(self).has_more_releases == old(self).has_more_releases,
            final(self).releases@.len() == old(self).releases@.len(),
            index < old(self).releases@.len() ==> {
                &&& final(self).releases@[index as int].tag_name == old(self).releases@[index as int].tag_name
                &&& final(self).releases@[index as int].name == old(self).releases@[index as int].name
                &&& final(self).releases@[index as int].selected == !old(self).releases@[index as int].selected
            },
            forall|j: int|
                0 <= j < old(self).releases@.len() && j != index ==> final(self).releases@[j]
                    == old(self).releases@[j],
            index >= old(self).releases@.len() ==> final(self).releases@ == old(self).releases@,
    {
        if index < self.releases.len() {
            let entry = ReleaseInfo {
                tag_name: self.releases[index].tag_name.clone(),
                name: self.releases[index].name.clone(),
                selected: !self.releases[index].selected,
            };
            self.releases.set(index, entry);
        }
    }

    /// The releases the user has selected, in listing order.
    pub fn selected_releases(&self) -> (r: Vec<ReleaseInfo>)
        ensures
            r@ == self.releases@.filter(|x: ReleaseInfo| x.selected),
    {
        let mut r: Vec<ReleaseInfo> = Vec::new();
        let mut i: usize = 0;
        while i < self.releases.len()
            invariant
                0 <= i <= self.releases@.len(),
                r@ == self.releases@.take(i as int).filter(|x: ReleaseInfo| x.selected),
            decreases self.releases@.len() - i,
        {
            proof {
                assert(self.releases@.take(i + 1).drop_last() =~= self.releases@.take(i as int));
                assert(self.releases@.take(i + 1).last() == self.releases@[i as int]);
                reveal_with_fuel(Seq::filter, 2);
            }
            if self.releases[i].selected {
                let entry = ReleaseInfo {
                    tag_name: self.releases[i].tag_name.clone(),
                    name: self.releases[i].name.clone(),
                    selected: true,
                };
                proof {
                    assert(entry == self.releases@[i as int]);
                }
                r.push(entry);
            }
            i += 1;
        }
        proof {
            assert(self.releases@.take(self.releases@.len() as int) =~= self.releases@);
        }
        r
    }
}

} // verus!
