//! Cloud media synchronisation for one cycle: page through the media changed
//! since a watermark, skip deleted and already stored clips, download the
//! rest with bounded retries.

use vstd::prelude::*;
use crate::action::{Action, ActionView, CycleEnd};
use crate::api::{media_changed_url, media_changed_url_of, media_url, media_url_of};
use crate::classify::Fault;
use crate::paths::{output_path, output_path_of};

verus! {

/// Download attempts per clip before it is left for a later cycle.
pub const MAX_DOWNLOAD_ATTEMPTS: u64 = 9;

/// One clip of the changed-media listing.
#[derive(Clone, Debug, PartialEq, Eq)]
pub struct CloudItem {
    pub media: String,
    pub created_at: String,
    pub network_name: String,
    pub device_name: String,
    pub deleted: bool,
}

/// Where the engine stands.
#[derive(Clone, Copy, Debug, PartialEq, Eq, Structural)]
pub enum CloudPhase {
    /// Waiting for a page of the listing.
    Listing,
    /// Waiting to learn whether the current clip's file exists.
    Probing,
    /// Waiting for the current clip's download.
    Downloading,
    /// The cycle is over.
    Done,
}

/// What the host reports back.
#[derive(Clone, Debug, PartialEq, Eq)]
pub enum CloudEvent {
    /// The listing call succeeded with these clips.
    Page(Vec<CloudItem>),
    /// Whether the probed file exists.
    Exists(bool),
    /// The download was stored.
    Saved,
    /// The listing call or the download failed.
    Failed(Fault),
}

/// The cloud synchroniser of one cycle.
pub struct CloudSync {
    host: String,
    account: u64,
    since: String,
    folder: String,
    phase: CloudPhase,
    page: u64,
    items: Vec<CloudItem>,
    index: usize,
    attempt: u64,
    end: CycleEnd,
}

/// The synchroniser's state as a value.
pub struct CloudView {
    pub host: Seq<char>,
    pub account: u64,
    pub since: Seq<char>,
    pub folder: Seq<char>,
    pub phase: CloudPhase,
    pub page: u64,
    pub items: Seq<CloudItem>,
    pub index: int,
    pub attempt: u64,
    pub end: CycleEnd,
}

impl View for CloudSync {
    type V = CloudView;

    closed spec fn view(&self) -> CloudView {
        CloudView {
            host: self.host@,
            account: self.account,
            since: self.since@,
            folder: self.folder@,
            phase: self.phase,
            page: self.page,
            items: self.items@,
            index: self.index as int,
            attempt: self.attempt,
            end: self.end,
        }
    }
}

/// The file a cloud clip is stored in.
pub open spec fn item_path(folder: Seq<char>, it: CloudItem) -> Seq<char> {
    output_path_of(folder, it.network_name@, it.device_name@, it.created_at@)
}

/// The engine expects this event in this phase.
pub open spec fn awaits(phase: CloudPhase, ev: CloudEvent) -> bool {
    match phase {
        CloudPhase::Listing => ev is Page || ev is Failed,
        CloudPhase::Probing => ev is Exists,
        CloudPhase::Downloading => ev is Saved || ev is Failed,
        CloudPhase::Done => true,
    }
}

/// The state's own consistency: a clip being handled exists and is not
/// deleted, and retries stay within their bound.
pub open spec fn consistent(s: CloudView) -> bool {
    &&& (s.phase == CloudPhase::Probing || s.phase == CloudPhase::Downloading) ==> (0 <= s.index
        < s.items.len() && !s.items[s.index].deleted)
    &&& s.attempt <= MAX_DOWNLOAD_ATTEMPTS
    &&& s.phase == CloudPhase::Downloading ==> s.attempt >= 1
}

/// The first clip at or after `from` that is not deleted, or the end of the list.
pub open spec fn next_live(items: Seq<CloudItem>, from: int) -> int
    decreases items.len() - from,
{
    if from < 0 || from >= items.len() {
        items.len() as int
    } else if !items[from].deleted {
        from
    } else {
        next_live(items, from + 1)
    }
}

/// End the cycle.
pub open spec fn finish(s: CloudView, end: CycleEnd) -> (CloudView, ActionView) {
    (CloudView { phase: CloudPhase::Done, end, ..s }, ActionView::Finish { end, delay_secs: 0 })
}

/// Ask for a page of the listing.
pub open spec fn list_page(s: CloudView, page: u64) -> (CloudView, ActionView) {
    (
        CloudView { phase: CloudPhase::Listing, page, items: Seq::empty(), index: 0, attempt: 0, ..s },
        ActionView::Get { url: media_changed_url_of(s.host, s.account, s.since, page), delay_secs: 0 },
    )
}

/// Move on to the first live clip at or after `from`; past the last clip, to
/// the next page.
pub open spec fn advance(s: CloudView, from: int) -> (CloudView, ActionView) {
    let j = next_live(s.items, from);
    if j < s.items.len() {
        (
            CloudView { phase: CloudPhase::Probing, index: j, attempt: 0, ..s },
            ActionView::Probe { path: item_path(s.folder, s.items[j]) },
        )
    } else if s.page < u64::MAX {
        list_page(s, (s.page + 1) as u64)
    } else {
        finish(s, CycleEnd::Completed)
    }
}

/// Download the current clip, as attempt number `attempt`.
pub open spec fn download(s: CloudView, attempt: u64) -> (CloudView, ActionView) {
    (
        CloudView { phase: CloudPhase::Downloading, attempt, ..s },
        ActionView::Download {
            url: media_url_of(s.host, s.items[s.index].media@),
            path: item_path(s.folder, s.items[s.index]),
        },
    )
}

/// The transition table: the next state and the action, given an event.
pub open spec fn cloud_next(s: CloudView, ev: CloudEvent) -> (CloudView, ActionView) {
    match s.phase {
        CloudPhase::Listing => match ev {
            CloudEvent::Page(v) => if v@.len() == 0 {
                finish(s, CycleEnd::Completed)
            } else {
                advance(CloudView { items: v@, ..s }, 0)
            },
            CloudEvent::Failed(Fault::AuthExpired) => finish(s, CycleEnd::Reauthenticate),
            _ => finish(s, CycleEnd::Completed),
        },
        CloudPhase::Probing => match ev {
            CloudEvent::Exists(false) => download(s, 1),
            _ => advance(s, s.index + 1),
        },
        CloudPhase::Downloading => match ev {
            CloudEvent::Failed(Fault::AuthExpired) => finish(s, CycleEnd::Reauthenticate),
            CloudEvent::Failed(_) => if s.attempt < MAX_DOWNLOAD_ATTEMPTS {
                download(s, (s.attempt + 1) as u64)
            } else {
                advance(s, s.index + 1)
            },
            _ => advance(s, s.index + 1),
        },
        CloudPhase::Done => (s, ActionView::Finish { end: s.end, delay_secs: 0 }),
    }
}

/// The state a cycle starts in, listing page one.
pub open spec fn cloud_start(host: Seq<char>, account: u64, since: Seq<char>, folder: Seq<char>) -> (
    CloudView,
    ActionView,
) {
    (
        CloudView {
            host,
            account,
            since,
            folder,
            phase: CloudPhase::Listing,
            page: 1,
            items: Seq::empty(),
            index: 0,
            attempt: 0,
            end: CycleEnd::Completed,
        },
        ActionView::Get { url: media_changed_url_of(host, account, since, 1), delay_secs: 0 },
    )
}

impl CloudSync {
    pub open spec fn wf(&self) -> bool {
        consistent(self@)
    }

    /// Starts a cycle for the media changed since `since` (an RFC 3339
    /// time), storing clips under `folder`.
    pub fn start(host: String, account: u64, since: String, folder: String) -> (r: (CloudSync, Action))
        ensures
            r.0.wf(),
            (r.0@, r.1@) == cloud_start(host@, account, since@, folder@),
    {
        let url = media_changed_url(host.as_str(), account, since.as_str(), 1);
        let s = CloudSync {
            host,
            account,
            since,
            folder,
            phase: CloudPhase::Listing,
            page: 1,
            items: Vec::new(),
            index: 0,
            attempt: 0,
            end: CycleEnd::Completed,
        };
        assert(s@.items =~= Seq::<CloudItem>::empty());
        (s, Action::Get { url, delay_secs: 0 })
    }

    pub fn phase(&self) -> (r: CloudPhase)
        ensures
            r == self@.phase,
    {
        self.phase
    }

    /// Whether `ev` is an answer the engine waits for.
    pub fn accepts(&self, ev: &CloudEvent) -> (r: bool)
        ensures
            r == awaits(self@.phase, *ev),
    {
        match self.phase {
            CloudPhase::Listing => matches!(ev, CloudEvent::Page(_) | CloudEvent::Failed(_)),
            CloudPhase::Probing => matches!(ev, CloudEvent::Exists(_)),
            CloudPhase::Downloading => matches!(ev, CloudEvent::Saved | CloudEvent::Failed(_)),
            CloudPhase::Done => true,
        }
    }

    fn finish(&mut self, end: CycleEnd) -> (a: Action)
        requires
            old(self).wf(),
        ensures
            final(self).wf(),
            (final(self)@, a@) == finish(old(self)@, end),
    {
        self.phase = CloudPhase::Done;
        self.end = end;
        Action::Finish { end, delay_secs: 0 }
    }

    fn list_page(&mut self, page: u64) -> (a: Action)
        requires
            old(self).wf(),
        ensures
            final(self).wf(),
            (final(self)@, a@) == list_page(old(self)@, page),
    {
        let url = media_changed_url(self.host.as_str(), self.account, self.since.as_str(), page);
        self.phase = CloudPhase::Listing;
        self.page = page;
        self.items = Vec::new();
        self.index = 0;
        self.attempt = 0;
        assert(self@.items =~= Seq::<CloudItem>::empty());
        Action::Get { url, delay_secs: 0 }
    }

    fn advance(&mut self, from: usize) -> (a: Action)
        requires
            old(self).wf() || old(self)@.phase == CloudPhase::Listing,
            old(self)@.attempt <= MAX_DOWNLOAD_ATTEMPTS,
            from <= old(self)@.items.len(),
        ensures
            final(self).wf(),
            (final(self)@, a@) == advance(old(self)@, from as int),
    {
        let mut j: usize = from;
        while j < self.items.len() && self.items[j].deleted
            invariant
                from <= j <= self.items@.len(),
                next_live(self.items@, from as int) == next_live(self.items@, j as int),
            decreases self.items@.len() - j,
        {
            j = j + 1;
        }
        if j < self.items.len() {
            self.phase = CloudPhase::Probing;
            self.index = j;
            self.attempt = 0;
            let it = &self.items[j];
            let path = output_path(
                self.folder.as_str(),
                it.network_name.as_str(),
                it.device_name.as_str(),
                it.created_at.as_str(),
            );
            Action::Probe { path }
        } else if self.page < u64::MAX {
            let p = self.page + 1;
            self.list_page(p)
        } else {
            self.finish(CycleEnd::Completed)
        }
    }

    fn download(&mut self, attempt: u64) -> (a: Action)
        requires
            old(self).wf(),
            old(self)@.phase == CloudPhase::Probing || old(self)@.phase == CloudPhase::Downloading,
            1 <= attempt <= MAX_DOWNLOAD_ATTEMPTS,
        ensures
            final(self).wf(),
            (final(self)@, a@) == download(old(self)@, attempt),
    {
        self.phase = CloudPhase::Downloading;
        self.attempt = attempt;
        let it = &self.items[self.index];
        let url = media_url(self.host.as_str(), it.media.as_str());
        let path = output_path(
            self.folder.as_str(),
            it.network_name.as_str(),
            it.device_name.as_str(),
            it.created_at.as_str(),
        );
        Action::Download { url, path }
    }

    /// Takes the host's answer and returns what to do next.
    pub fn step(&mut self, ev: CloudEvent) -> (a: Action)
        requires
            old(self).wf(),
            awaits(old(self)@.phase, ev),
        ensures
            final(self).wf(),
            (final(self)@, a@) == cloud_next(old(self)@, ev),
    {
        // the length bound keeps `index + 1` in range
        let _count = self.items.len();
        match self.phase {
            CloudPhase::Listing => match ev {
                CloudEvent::Page(v) => {
                    if v.len() == 0 {
                        self.finish(CycleEnd::Completed)
                    } else {
                        self.items = v;
                        self.advance(0)
                    }
                },
                CloudEvent::Failed(Fault::AuthExpired) => self.finish(CycleEnd::Reauthenticate),
                _ => self.finish(CycleEnd::Completed),
            },
            CloudPhase::Probing => match ev {
                CloudEvent::Exists(false) => self.download(1),
                _ => {
                    let next = self.index + 1;
                    self.advance(next)
                },
            },
            CloudPhase::Downloading => match ev {
                CloudEvent::Failed(Fault::AuthExpired) => self.finish(CycleEnd::Reauthenticate),
                CloudEvent::Failed(_) => {
                    if self.attempt < MAX_DOWNLOAD_ATTEMPTS {
                        let n = self.attempt + 1;
                        self.download(n)
                    } else {
                        let next = self.index + 1;
                        self.advance(next)
                    }
                },
                _ => {
                    let next = self.index + 1;
                    self.advance(next)
                },
            },
            CloudPhase::Done => Action::Finish { end: self.end, delay_secs: 0 },
        }
    }
}

/// The actions a run of events produces, one per event.
pub open spec fn cloud_run(s: CloudView, evs: Seq<CloudEvent>) -> Seq<ActionView>
    decreases evs.len(),
{
    if evs.len() == 0 {
        Seq::empty()
    } else {
        let (t, a) = cloud_next(s, evs[0]);
        seq![a] + cloud_run(t, evs.drop_first())
    }
}

proof fn lemma_next_live(items: Seq<CloudItem>, from: int)
    requires
        0 <= from <= items.len(),
    ensures
        from <= next_live(items, from) <= items.len(),
        next_live(items, from) < items.len() ==> !items[next_live(items, from)].deleted,
    decreases items.len() - from,
{
    if from < items.len() && items[from].deleted {
        lemma_next_live(items, from + 1);
    }
}

/// Every transition keeps the state consistent.
pub proof fn lemma_next_consistent(s: CloudView, ev: CloudEvent)
    requires
        consistent(s),
    ensures
        consistent(cloud_next(s, ev).0),
{
    match s.phase {
        CloudPhase::Listing => match ev {
            CloudEvent::Page(v) => lemma_next_live(v@, 0),
            _ => {},
        },
        CloudPhase::Probing | CloudPhase::Downloading => lemma_next_live(s.items, s.index + 1),
        CloudPhase::Done => {},
    }
}

/// A deleted clip is never downloaded, whether or not its file exists: every
/// download asked for is of the current clip, which is live, at its own
/// media address and its own output path.
pub proof fn lemma_deleted_never_downloaded(s: CloudView, ev: CloudEvent)
    requires
        consistent(s),
    ensures
        ({
            let (t, a) = cloud_next(s, ev);
            a is Download ==> {
                &&& 0 <= t.index < t.items.len()
                &&& !t.items[t.index].deleted
                &&& a == (ActionView::Download {
                    url: media_url_of(t.host, t.items[t.index].media@),
                    path: item_path(t.folder, t.items[t.index]),
                })
            }
        }),
{
    lemma_next_consistent(s, ev);
}

/// A cycle in which every probed file turns out to exist downloads nothing:
/// once a cycle has stored every clip of the listing, running another cycle
/// over the same listing adds no download and no file.
pub proof fn lemma_present_files_not_downloaded(s: CloudView, evs: Seq<CloudEvent>)
    requires
        s.phase != CloudPhase::Downloading,
        forall|i: int| 0 <= i < evs.len() ==> evs[i] != CloudEvent::Exists(false),
    ensures
        forall|i: int| 0 <= i < cloud_run(s, evs).len() ==> !(#[trigger] cloud_run(s, evs)[i] is Download),
    decreases evs.len(),
{
    if evs.len() > 0 {
        let (t, a) = cloud_next(s, evs[0]);
        assert(t.phase != CloudPhase::Downloading);
        assert(!(a is Download));
        assert forall|i: int| 0 <= i < evs.drop_first().len() implies evs.drop_first()[i]
            != CloudEvent::Exists(false) by {
            assert(evs.drop_first()[i] == evs[i + 1]);
        }
        lemma_present_files_not_downloaded(t, evs.drop_first());
        let r = cloud_run(s, evs);
        assert forall|i: int| 0 <= i < r.len() implies !(#[trigger] r[i] is Download) by {
            if i > 0 {
                assert(r[i] == cloud_run(t, evs.drop_first())[i - 1]);
            }
        }
    }
}

/// An empty listing page ends the cycle, completed.
pub proof fn lemma_empty_page_ends_cycle(s: CloudView, v: Vec<CloudItem>)
    requires
        s.phase == CloudPhase::Listing,
        v@.len() == 0,
    ensures
        cloud_next(s, CloudEvent::Page(v)).0.phase == CloudPhase::Done,
        cloud_next(s, CloudEvent::Page(v)).1 == (ActionView::Finish {
            end: CycleEnd::Completed,
            delay_secs: 0,
        }),
{
}

/// An expired session ends the cycle at once, whether the listing or a
/// download reported it, and nothing is asked for after it.
pub proof fn lemma_auth_expiry_ends_cycle(s: CloudView, evs: Seq<CloudEvent>)
    requires
        s.phase == CloudPhase::Listing || s.phase == CloudPhase::Downloading,
        evs.len() >= 1,
        evs[0] == CloudEvent::Failed(Fault::AuthExpired),
    ensures
        forall|i: int| 0 <= i < cloud_run(s, evs).len() ==> #[trigger] cloud_run(s, evs)[i] == (ActionView::Finish {
            end: CycleEnd::Reauthenticate,
            delay_secs: 0,
        }),
{
    let t = cloud_next(s, evs[0]).0;
    assert(t.phase == CloudPhase::Done && t.end == CycleEnd::Reauthenticate);
    lemma_done_stays(t, evs.drop_first());
    let r = cloud_run(s, evs);
    assert forall|i: int| 0 <= i < r.len() implies #[trigger] r[i] == (ActionView::Finish {
        end: CycleEnd::Reauthenticate,
        delay_secs: 0,
    }) by {
        if i > 0 {
            assert(r[i] == cloud_run(t, evs.drop_first())[i - 1]);
        }
    }
}

proof fn lemma_done_stays(s: CloudView, evs: Seq<CloudEvent>)
    requires
        s.phase == CloudPhase::Done,
    ensures
        cloud_run(s, evs).len() == evs.len(),
        forall|i: int| 0 <= i < evs.len() ==> #[trigger] cloud_run(s, evs)[i] == (ActionView::Finish {
            end: s.end,
            delay_secs: 0,
        }),
    decreases evs.len(),
{
    if evs.len() > 0 {
        lemma_done_stays(s, evs.drop_first());
        let r = cloud_run(s, evs);
        assert forall|i: int| 0 <= i < evs.len() implies #[trigger] r[i] == (ActionView::Finish {
            end: s.end,
            delay_secs: 0,
        }) by {
            if i > 0 {
                assert(r[i] == cloud_run(s, evs.drop_first())[i - 1]);
            }
        }
    }
}

} // verus!
