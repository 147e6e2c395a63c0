//! Local-storage synchronisation for one cycle: for every active sync module,
//! request a manifest of its stored clips, poll until it is ready, then for
//! each clip not yet stored ask the service to upload it, poll the upload,
//! and download it.

use vstd::prelude::*;
use vstd::string::*;
use crate::action::{Action, ActionView, CycleEnd};
use crate::api::{
    homescreen_url, homescreen_url_of,
    clip_url, clip_url_of, command_url, command_url_of, manifest_request_url,
    manifest_request_url_of, manifest_url, manifest_url_of,
};
use crate::classify::Fault;
use crate::paths::{output_path, output_path_of};

verus! {

/// Upload requests per clip before the rest of the cycle is given up.
pub const MAX_UPLOAD_REQUESTS: u64 = 3;

/// Completion polls per upload before the clip is left for a later cycle.
pub const MAX_UPLOAD_POLLS: u64 = 6;

/// Seconds between a request and the first poll of its job.
pub const JOB_SETTLE_SECS: u64 = 2;

/// Seconds between two polls of a manifest that is still being prepared.
pub const MANIFEST_POLL_SECS: u64 = 5;

/// Seconds between two polls of an upload.
pub const UPLOAD_POLL_SECS: u64 = 2;

/// Seconds of cooldown after an upload request failed for good.
pub const UPLOAD_COOLDOWN_SECS: u64 = 10;

/// A site of the account.
#[derive(Clone, Debug, PartialEq, Eq)]
pub struct Network {
    pub id: u64,
    pub name: String,
}

/// A hub that stores clips locally.
#[derive(Clone, Debug, PartialEq, Eq)]
pub struct SyncModule {
    pub id: u64,
    pub network_id: u64,
    pub local_storage_status: String,
}

/// A clip listed in a module's manifest.
#[derive(Clone, Debug, PartialEq, Eq)]
pub struct LocalClip {
    pub id: u64,
    pub device_name: String,
    pub created_at: String,
}

/// Where the engine stands.
#[derive(Clone, Copy, Debug, PartialEq, Eq, Structural)]
pub enum LocalPhase {
    /// Waiting for the device tree.
    Homescreen,
    /// Waiting for the job id of a manifest request.
    ManifestRequest,
    /// Waiting for the manifest to be ready.
    ManifestPoll,
    /// Waiting to learn whether the current clip's file exists.
    Probing,
    /// Waiting for the job id of an upload request.
    UploadRequest,
    /// Waiting for the completion flag of an upload.
    UploadPoll,
    /// Waiting for the current clip's download.
    Downloading,
    /// The cycle is over.
    Done,
}

/// What the host reports back.
#[derive(Clone, Debug, PartialEq, Eq)]
pub enum LocalEvent {
    /// The device tree: networks and sync modules.
    Tree(Vec<Network>, Vec<SyncModule>),
    /// A manifest or upload request was accepted under this job id.
    Job(u64),
    /// The manifest is ready: its id and its clips in listing order.
    Manifest(u64, Vec<LocalClip>),
    /// Whether the upload has completed.
    Status(bool),
    /// Whether the probed file exists.
    Exists(bool),
    /// The download was stored.
    Saved,
    /// The call failed.
    Failed(Fault),
    /// The manifest poll answered with a body that is no manifest.
    Undecodable,
}

/// The local synchroniser of one cycle.
pub struct LocalSync {
    host: String,
    account: u64,
    folder: String,
    phase: LocalPhase,
    networks: Vec<Network>,
    modules: Vec<SyncModule>,
    module: usize,
    network_name: String,
    manifest_job: u64,
    manifest_id: u64,
    clips: Vec<LocalClip>,
    clip: usize,
    attempt: u64,
    command_job: u64,
    end: CycleEnd,
}

/// The synchroniser's state as a value.
pub struct LocalView {
    pub host: Seq<char>,
    pub account: u64,
    pub folder: Seq<char>,
    pub phase: LocalPhase,
    pub networks: Seq<Network>,
    pub modules: Seq<SyncModule>,
    pub module: int,
    pub network_name: Seq<char>,
    pub manifest_job: u64,
    pub manifest_id: u64,
    pub clips: Seq<LocalClip>,
    pub clip: int,
    pub attempt: u64,
    pub command_job: u64,
    pub end: CycleEnd,
}

impl View for LocalSync {
    type V = LocalView;

    closed spec fn view(&self) -> LocalView {
        LocalView {
            host: self.host@,
            account: self.account,
            folder: self.folder@,
            phase: self.phase,
            networks: self.networks@,
            modules: self.modules@,
            module: self.module as int,
            network_name: self.network_name@,
            manifest_job: self.manifest_job,
            manifest_id: self.manifest_id,
            clips: self.clips@,
            clip: self.clip as int,
            attempt: self.attempt,
            command_job: self.command_job,
            end: self.end,
        }
    }
}

/// Only modules whose storage is active are synchronised.
pub open spec fn is_active(m: SyncModule) -> bool {
    m.local_storage_status@ == "active"@
}

/// The name of the first network with this id, or `unknown`.
pub open spec fn network_name_of(networks: Seq<Network>, id: u64) -> Seq<char>
    decreases networks.len(),
{
    if networks.len() == 0 {
        "unknown"@
    } else if networks[0].id == id {
        networks[0].name@
    } else {
        network_name_of(networks.drop_first(), id)
    }
}

/// The first active module at or after `from`, or the end of the list.
pub open spec fn next_active(modules: Seq<SyncModule>, from: int) -> int
    decreases modules.len() - from,
{
    if from < 0 || from >= modules.len() {
        modules.len() as int
    } else if is_active(modules[from]) {
        from
    } else {
        next_active(modules, from + 1)
    }
}

/// The engine expects this event in this phase.
pub open spec fn awaits(phase: LocalPhase, ev: LocalEvent) -> bool {
    match phase {
        LocalPhase::Homescreen => ev is Tree || ev is Failed,
        LocalPhase::ManifestRequest => ev is Job || ev is Failed,
        LocalPhase::ManifestPoll => ev is Manifest || ev is Failed || ev is Undecodable,
        LocalPhase::Probing => ev is Exists,
        LocalPhase::UploadRequest => ev is Job || ev is Failed,
        LocalPhase::UploadPoll => ev is Status || ev is Failed,
        LocalPhase::Downloading => ev is Saved || ev is Failed,
        LocalPhase::Done => true,
    }
}

/// The state's own consistency.
pub open spec fn consistent(s: LocalView) -> bool {
    let at_module = s.phase != LocalPhase::Homescreen && s.phase != LocalPhase::Done;
    let at_clip = at_module && s.phase != LocalPhase::ManifestRequest && s.phase
        != LocalPhase::ManifestPoll;
    &&& at_module ==> 0 <= s.module < s.modules.len() && is_active(s.modules[s.module])
    &&& at_clip ==> 0 <= s.clip < s.clips.len()
    &&& s.phase == LocalPhase::UploadRequest ==> 1 <= s.attempt <= MAX_UPLOAD_REQUESTS
    &&& s.phase == LocalPhase::UploadPoll ==> 1 <= s.attempt <= MAX_UPLOAD_POLLS
}

/// The current module's manifest request address.
pub open spec fn request_url(s: LocalView) -> Seq<char> {
    manifest_request_url_of(
        s.host,
        s.account,
        s.modules[s.module].network_id,
        s.modules[s.module].id,
    )
}

/// The current manifest's address.
pub open spec fn manifest_address(s: LocalView) -> Seq<char> {
    manifest_url_of(
        s.host,
        s.account,
        s.modules[s.module].network_id,
        s.modules[s.module].id,
        s.manifest_job,
    )
}

/// The current clip's request address, used for the upload request and for
/// the download alike.
pub open spec fn clip_address(s: LocalView) -> Seq<char> {
    clip_url_of(
        s.host,
        s.account,
        s.modules[s.module].network_id,
        s.modules[s.module].id,
        s.manifest_id,
        s.clips[s.clip].id,
    )
}

/// The current upload's status address.
pub open spec fn command_address(s: LocalView) -> Seq<char> {
    command_url_of(s.host, s.modules[s.module].network_id, s.command_job)
}

/// The file the current clip is stored in.
pub open spec fn clip_path(s: LocalView) -> Seq<char> {
    output_path_of(
        s.folder,
        s.network_name,
        s.clips[s.clip].device_name@,
        s.clips[s.clip].created_at@,
    )
}

/// End the cycle after `delay` seconds.
pub open spec fn finish(s: LocalView, end: CycleEnd, delay: u64) -> (LocalView, ActionView) {
    (LocalView { phase: LocalPhase::Done, end, ..s }, ActionView::Finish { end, delay_secs: delay })
}

/// Go on with the first active module at or after `from`.
pub open spec fn advance_module(s: LocalView, from: int) -> (LocalView, ActionView) {
    let j = next_active(s.modules, from);
    if j < s.modules.len() {
        let t = LocalView {
            phase: LocalPhase::ManifestRequest,
            module: j,
            network_name: network_name_of(s.networks, s.modules[j].network_id),
            clips: Seq::empty(),
            clip: 0,
            attempt: 0,
            ..s
        };
        (t, ActionView::Post { url: request_url(t), delay_secs: 0 })
    } else {
        finish(s, CycleEnd::Completed, 0)
    }
}

/// Go on with clip `c` of the manifest; past the last, with the next module.
pub open spec fn advance_clip(s: LocalView, c: int) -> (LocalView, ActionView) {
    if 0 <= c < s.clips.len() {
        let t = LocalView { phase: LocalPhase::Probing, clip: c, attempt: 0, ..s };
        (t, ActionView::Probe { path: clip_path(t) })
    } else {
        advance_module(s, s.module + 1)
    }
}

/// Ask for the current clip's upload, as attempt number `attempt`.
pub open spec fn request_upload(s: LocalView, attempt: u64) -> (LocalView, ActionView) {
    (
        LocalView { phase: LocalPhase::UploadRequest, attempt, ..s },
        ActionView::Post { url: clip_address(s), delay_secs: 0 },
    )
}

/// Poll the current upload, as poll number `poll`.
pub open spec fn poll_upload(s: LocalView, poll: u64) -> (LocalView, ActionView) {
    (
        LocalView { phase: LocalPhase::UploadPoll, attempt: poll, ..s },
        ActionView::Get { url: command_address(s), delay_secs: UPLOAD_POLL_SECS },
    )
}

/// The transition table: the next state and the action, given an event.
pub open spec fn local_next(s: LocalView, ev: LocalEvent) -> (LocalView, ActionView) {
    match s.phase {
        LocalPhase::Homescreen => match ev {
            LocalEvent::Tree(n, m) => advance_module(LocalView { networks: n@, modules: m@, ..s }, 0),
            _ => finish(s, CycleEnd::Reauthenticate, 0),
        },
        LocalPhase::ManifestRequest => match ev {
            LocalEvent::Job(id) => {
                let t = LocalView { phase: LocalPhase::ManifestPoll, manifest_job: id, ..s };
                (t, ActionView::Get { url: manifest_address(t), delay_secs: JOB_SETTLE_SECS })
            },
            LocalEvent::Failed(Fault::AuthExpired) => finish(s, CycleEnd::Reauthenticate, 0),
            _ => advance_module(s, s.module + 1),
        },
        LocalPhase::ManifestPoll => match ev {
            LocalEvent::Manifest(id, clips) => advance_clip(
                LocalView { manifest_id: id, clips: clips@, ..s },
                0,
            ),
            LocalEvent::Failed(Fault::Pending) => (
                s,
                ActionView::Get { url: manifest_address(s), delay_secs: MANIFEST_POLL_SECS },
            ),
            LocalEvent::Undecodable => finish(s, CycleEnd::Fatal, 0),
            _ => finish(s, CycleEnd::Reauthenticate, 0),
        },
        LocalPhase::Probing => match ev {
            LocalEvent::Exists(false) => request_upload(s, 1),
            _ => advance_clip(s, s.clip + 1),
        },
        LocalPhase::UploadRequest => match ev {
            LocalEvent::Job(id) => {
                let t = LocalView { command_job: id, ..s };
                (
                    LocalView { phase: LocalPhase::UploadPoll, attempt: 1, ..t },
                    ActionView::Get { url: command_address(t), delay_secs: JOB_SETTLE_SECS },
                )
            },
            LocalEvent::Failed(Fault::AuthExpired) => finish(s, CycleEnd::Reauthenticate, 0),
            _ => if s.attempt < MAX_UPLOAD_REQUESTS {
                request_upload(s, (s.attempt + 1) as u64)
            } else {
                finish(s, CycleEnd::Completed, UPLOAD_COOLDOWN_SECS)
            },
        },
        LocalPhase::UploadPoll => match ev {
            LocalEvent::Status(true) => (
                LocalView { phase: LocalPhase::Downloading, ..s },
                ActionView::Download { url: clip_address(s), path: clip_path(s) },
            ),
            LocalEvent::Failed(Fault::AuthExpired) => finish(s, CycleEnd::Reauthenticate, 0),
            _ => if s.attempt < MAX_UPLOAD_POLLS {
                poll_upload(s, (s.attempt + 1) as u64)
            } else {
                advance_clip(s, s.clip + 1)
            },
        },
        LocalPhase::Downloading => match ev {
            LocalEvent::Failed(Fault::AuthExpired) => finish(s, CycleEnd::Reauthenticate, 0),
            _ => advance_clip(s, s.clip + 1),
        },
        LocalPhase::Done => (s, ActionView::Finish { end: s.end, delay_secs: 0 }),
    }
}

/// The state a cycle starts in: waiting for the device tree, nothing listed yet.
pub open spec fn local_start(host: Seq<char>, account: u64, folder: Seq<char>, s: LocalView) -> bool {
    &&& s.host == host
    &&& s.account == account
    &&& s.folder == folder
    &&& s.phase == LocalPhase::Homescreen
    &&& s.networks.len() == 0
    &&& s.modules.len() == 0
    &&& s.clips.len() == 0
    &&& s.end == CycleEnd::Completed
}

/// The name of the first network with this id, or `unknown`.
fn lookup_network(networks: &Vec<Network>, id: u64) -> (r: String)
    ensures
        r@ == network_name_of(networks@, id),
{
    let n = networks.len();
    let mut i: usize = 0;
    assert(networks@.subrange(0, n as int) =~= networks@);
    while i < n
        invariant
            n == networks@.len(),
            i <= n,
            network_name_of(networks@, id) == network_name_of(networks@.subrange(i as int, n as int), id),
        decreases n - i,
    {
        assert(networks@.subrange(i as int, n as int)[0] == networks@[i as int]);
        if networks[i].id == id {
            return networks[i].name.clone();
        }
        assert(networks@.subrange(i as int, n as int).drop_first() =~= networks@.subrange(i + 1, n as int));
        i = i + 1;
    }
    assert(networks@.subrange(n as int, n as int).len() == 0);
    String::from_str("unknown")
}

impl LocalSync {
    pub open spec fn wf(&self) -> bool {
        consistent(self@)
    }

    /// Starts a cycle: the first action fetches the account's device tree.
    pub fn start(host: String, account: u64, folder: String) -> (r: (LocalSync, Action))
        ensures
            r.0.wf(),
            local_start(host@, account, folder@, r.0@),
            r.1@ == (ActionView::Get { url: homescreen_url_of(host@, account), delay_secs: 0 }),
    {
        let url = homescreen_url(host.as_str(), account);
        let s = LocalSync {
            host,
            account,
            folder,
            phase: LocalPhase::Homescreen,
            networks: Vec::new(),
            modules: Vec::new(),
            module: 0,
            network_name: String::new(),
            manifest_job: 0,
            manifest_id: 0,
            clips: Vec::new(),
            clip: 0,
            attempt: 0,
            command_job: 0,
            end: CycleEnd::Completed,
        };
        (s, Action::Get { url, delay_secs: 0 })
    }

    pub fn phase(&self) -> (r: LocalPhase)
        ensures
            r == self@.phase,
    {
        self.phase
    }

    /// Whether `ev` is an answer the engine waits for.
    pub fn accepts(&self, ev: &LocalEvent) -> (r: bool)
        ensures
            r == awaits(self@.phase, *ev),
    {
        match self.phase {
            LocalPhase::Homescreen => matches!(ev, LocalEvent::Tree(..) | LocalEvent::Failed(_)),
            LocalPhase::ManifestRequest => matches!(ev, LocalEvent::Job(_) | LocalEvent::Failed(_)),
            LocalPhase::ManifestPoll => matches!(
                ev,
                LocalEvent::Manifest(..) | LocalEvent::Failed(_) | LocalEvent::Undecodable
            ),
            LocalPhase::Probing => matches!(ev, LocalEvent::Exists(_)),
            LocalPhase::UploadRequest => matches!(ev, LocalEvent::Job(_) | LocalEvent::Failed(_)),
            LocalPhase::UploadPoll => matches!(ev, LocalEvent::Status(_) | LocalEvent::Failed(_)),
            LocalPhase::Downloading => matches!(ev, LocalEvent::Saved | LocalEvent::Failed(_)),
            LocalPhase::Done => true,
        }
    }

    fn finish(&mut self, end: CycleEnd, delay: u64) -> (a: Action)
        ensures
            (final(self)@, a@) == finish(old(self)@, end, delay),
    {
        self.phase = LocalPhase::Done;
        self.end = end;
        Action::Finish { end, delay_secs: delay }
    }

    fn advance_module(&mut self, from: usize) -> (a: Action)
        requires
            from <= old(self)@.modules.len(),
        ensures
            consistent(final(self)@),
            (final(self)@, a@) == advance_module(old(self)@, from as int),
    {
        let n = self.modules.len();
        let active = String::from_str("active");
        let mut j: usize = from;
        while j < n && !(self.modules[j].local_storage_status == active)
            invariant
                n == self.modules@.len(),
                active@ == "active"@,
                from <= j <= n,
                next_active(self.modules@, from as int) == next_active(self.modules@, j as int),
            decreases n - j,
        {
            j = j + 1;
        }
        if j < n {
            let m = &self.modules[j];
            let url = manifest_request_url(self.host.as_str(), self.account, m.network_id, m.id);
            self.network_name = lookup_network(&self.networks, m.network_id);
            self.phase = LocalPhase::ManifestRequest;
            self.module = j;
            self.clips = Vec::new();
            self.clip = 0;
            self.attempt = 0;
            assert(self@.clips =~= Seq::<LocalClip>::empty());
            Action::Post { url, delay_secs: 0 }
        } else {
            self.finish(CycleEnd::Completed, 0)
        }
    }

    fn advance_clip(&mut self, c: usize) -> (a: Action)
        requires
            consistent(old(self)@),
            old(self)@.phase != LocalPhase::Homescreen && old(self)@.phase != LocalPhase::Done,
        ensures
            consistent(final(self)@),
            (final(self)@, a@) == advance_clip(old(self)@, c as int),
    {
        if c < self.clips.len() {
            self.phase = LocalPhase::Probing;
            self.clip = c;
            self.attempt = 0;
            let clip = &self.clips[c];
            let path = output_path(
                self.folder.as_str(),
                self.network_name.as_str(),
                clip.device_name.as_str(),
                clip.created_at.as_str(),
            );
            Action::Probe { path }
        } else {
            // the length bound keeps `module + 1` in range
            let _modules = self.modules.len();
            let next = self.module + 1;
            self.advance_module(next)
        }
    }

    fn clip_address(&self) -> (r: String)
        requires
            0 <= self@.module < self@.modules.len(),
            0 <= self@.clip < self@.clips.len(),
        ensures
            r@ == clip_address(self@),
    {
        let m = &self.modules[self.module];
        clip_url(
            self.host.as_str(),
            self.account,
            m.network_id,
            m.id,
            self.manifest_id,
            self.clips[self.clip].id,
        )
    }

    fn command_address(&self) -> (r: String)
        requires
            0 <= self@.module < self@.modules.len(),
        ensures
            r@ == command_address(self@),
    {
        command_url(self.host.as_str(), self.modules[self.module].network_id, self.command_job)
    }

    fn manifest_address(&self) -> (r: String)
        requires
            0 <= self@.module < self@.modules.len(),
        ensures
            r@ == manifest_address(self@),
    {
        let m = &self.modules[self.module];
        manifest_url(self.host.as_str(), self.account, m.network_id, m.id, self.manifest_job)
    }

    /// Takes the host's answer and returns what to do next.
    pub fn step(&mut self, ev: LocalEvent) -> (a: Action)
        requires
            old(self).wf(),
            awaits(old(self)@.phase, ev),
        ensures
            final(self).wf(),
            (final(self)@, a@) == local_next(old(self)@, ev),
    {
        // the length bounds keep `module + 1` and `clip + 1` in range
        let _modules = self.modules.len();
        let _clips = self.clips.len();
        match self.phase {
            LocalPhase::Homescreen => match ev {
                LocalEvent::Tree(n, m) => {
                    self.networks = n;
                    self.modules = m;
                    self.advance_module(0)
                },
                _ => self.finish(CycleEnd::Reauthenticate, 0),
            },
            LocalPhase::ManifestRequest => match ev {
                LocalEvent::Job(id) => {
                    self.phase = LocalPhase::ManifestPoll;
                    self.manifest_job = id;
                    let url = self.manifest_address();
                    Action::Get { url, delay_secs: JOB_SETTLE_SECS }
                },
                LocalEvent::Failed(Fault::AuthExpired) => self.finish(CycleEnd::Reauthenticate, 0),
                _ => {
                    let next = self.module + 1;
                    self.advance_module(next)
                },
            },
            LocalPhase::ManifestPoll => match ev {
                LocalEvent::Manifest(id, clips) => {
                    self.manifest_id = id;
                    self.clips = clips;
                    self.advance_clip(0)
                },
                LocalEvent::Failed(Fault::Pending) => {
                    let url = self.manifest_address();
                    Action::Get { url, delay_secs: MANIFEST_POLL_SECS }
                },
                LocalEvent::Undecodable => self.finish(CycleEnd::Fatal, 0),
                _ => self.finish(CycleEnd::Reauthenticate, 0),
            },
            LocalPhase::Probing => match ev {
                LocalEvent::Exists(false) => {
                    let url = self.clip_address();
                    self.phase = LocalPhase::UploadRequest;
                    self.attempt = 1;
                    Action::Post { url, delay_secs: 0 }
                },
                _ => {
                    let next = self.clip + 1;
                    self.advance_clip(next)
                },
            },
            LocalPhase::UploadRequest => match ev {
                LocalEvent::Job(id) => {
                    self.command_job = id;
                    self.phase = LocalPhase::UploadPoll;
                    self.attempt = 1;
                    let url = self.command_address();
                    Action::Get { url, delay_secs: JOB_SETTLE_SECS }
                },
                LocalEvent::Failed(Fault::AuthExpired) => self.finish(CycleEnd::Reauthenticate, 0),
                _ => {
                    if self.attempt < MAX_UPLOAD_REQUESTS {
                        let url = self.clip_address();
                        self.attempt = self.attempt + 1;
                        Action::Post { url, delay_secs: 0 }
                    } else {
                        self.finish(CycleEnd::Completed, UPLOAD_COOLDOWN_SECS)
                    }
                },
            },
            LocalPhase::UploadPoll => match ev {
                LocalEvent::Status(true) => {
                    let url = self.clip_address();
                    let m = &self.clips[self.clip];
                    let path = output_path(
                        self.folder.as_str(),
                        self.network_name.as_str(),
                        m.device_name.as_str(),
                        m.created_at.as_str(),
                    );
                    self.phase = LocalPhase::Downloading;
                    Action::Download { url, path }
                },
                LocalEvent::Failed(Fault::AuthExpired) => self.finish(CycleEnd::Reauthenticate, 0),
                _ => {
                    if self.attempt < MAX_UPLOAD_POLLS {
                        let url = self.command_address();
                        self.attempt = self.attempt + 1;
                        Action::Get { url, delay_secs: UPLOAD_POLL_SECS }
                    } else {
                        let next = self.clip + 1;
                        self.advance_clip(next)
                    }
                },
            },
            LocalPhase::Downloading => match ev {
                LocalEvent::Failed(Fault::AuthExpired) => self.finish(CycleEnd::Reauthenticate, 0),
                _ => {
                    let next = self.clip + 1;
                    self.advance_clip(next)
                },
            },
            LocalPhase::Done => Action::Finish { end: self.end, delay_secs: 0 },
        }
    }
}

/// The actions a run of events produces, one per event.
pub open spec fn local_run(s: LocalView, evs: Seq<LocalEvent>) -> Seq<ActionView>
    decreases evs.len(),
{
    if evs.len() == 0 {
        Seq::empty()
    } else {
        let (t, a) = local_next(s, evs[0]);
        seq![a] + local_run(t, evs.drop_first())
    }
}

/// No clip is being uploaded or downloaded.
pub open spec fn between_clips(phase: LocalPhase) -> bool {
    phase != LocalPhase::UploadRequest && phase != LocalPhase::UploadPoll && phase
        != LocalPhase::Downloading
}

proof fn lemma_done_stays(s: LocalView, evs: Seq<LocalEvent>)
    requires
        s.phase == LocalPhase::Done,
    ensures
        local_run(s, evs).len() == evs.len(),
        forall|i: int| 0 <= i < evs.len() ==> #[trigger] local_run(s, evs)[i] == (ActionView::Finish {
            end: s.end,
            delay_secs: 0,
        }),
    decreases evs.len(),
{
    if evs.len() > 0 {
        lemma_done_stays(s, evs.drop_first());
        let r = local_run(s, evs);
        assert forall|i: int| 0 <= i < evs.len() implies #[trigger] r[i] == (ActionView::Finish {
            end: s.end,
            delay_secs: 0,
        }) by {
            if i > 0 {
                assert(r[i] == local_run(s, evs.drop_first())[i - 1]);
            }
        }
    }
}

/// An expired session reported by any call of the cycle halts it: that step
/// ends the cycle for re-authentication, and no later step asks for anything
/// but that end, so no further clip or sync module is processed.
pub proof fn lemma_auth_expiry_halts_cycle(s: LocalView, evs: Seq<LocalEvent>)
    requires
        s.phase != LocalPhase::Done,
        s.phase != LocalPhase::Probing,
        evs.len() >= 1,
        evs[0] == LocalEvent::Failed(Fault::AuthExpired),
    ensures
        local_run(s, evs).len() == evs.len(),
        forall|i: int| 0 <= i < evs.len() ==> #[trigger] local_run(s, evs)[i] == (ActionView::Finish {
            end: CycleEnd::Reauthenticate,
            delay_secs: 0,
        }),
{
    let t = local_next(s, evs[0]).0;
    assert(t.phase == LocalPhase::Done && t.end == CycleEnd::Reauthenticate);
    lemma_done_stays(t, evs.drop_first());
    let r = local_run(s, evs);
    assert forall|i: int| 0 <= i < evs.len() implies #[trigger] r[i] == (ActionView::Finish {
        end: CycleEnd::Reauthenticate,
        delay_secs: 0,
    }) by {
        if i > 0 {
            assert(r[i] == local_run(t, evs.drop_first())[i - 1]);
        }
    }
}

/// A manifest that stays pending is polled again and again at the fixed
/// interval: the state does not change and the cycle never fails on it.
pub proof fn lemma_pending_manifest_polled_forever(s: LocalView, evs: Seq<LocalEvent>)
    requires
        s.phase == LocalPhase::ManifestPoll,
        forall|i: int| 0 <= i < evs.len() ==> evs[i] == LocalEvent::Failed(Fault::Pending),
    ensures
        local_run(s, evs).len() == evs.len(),
        forall|i: int| 0 <= i < evs.len() ==> #[trigger] local_run(s, evs)[i] == (ActionView::Get {
            url: manifest_address(s),
            delay_secs: MANIFEST_POLL_SECS,
        }),
    decreases evs.len(),
{
    if evs.len() > 0 {
        assert(local_next(s, evs[0]) == (s, ActionView::Get {
            url: manifest_address(s),
            delay_secs: MANIFEST_POLL_SECS,
        }));
        assert forall|i: int| 0 <= i < evs.drop_first().len() implies evs.drop_first()[i]
            == LocalEvent::Failed(Fault::Pending) by {
            assert(evs.drop_first()[i] == evs[i + 1]);
        }
        lemma_pending_manifest_polled_forever(s, evs.drop_first());
        let r = local_run(s, evs);
        assert forall|i: int| 0 <= i < evs.len() implies #[trigger] r[i] == (ActionView::Get {
            url: manifest_address(s),
            delay_secs: MANIFEST_POLL_SECS,
        }) by {
            if i > 0 {
                assert(r[i] == local_run(s, evs.drop_first())[i - 1]);
            }
        }
    }
}

/// A cycle in which every probed file turns out to exist neither requests
/// an upload nor downloads: once a cycle has stored every clip, another one
/// over the same manifests adds no file.
pub proof fn lemma_present_files_not_fetched(s: LocalView, evs: Seq<LocalEvent>)
    requires
        between_clips(s.phase),
        forall|i: int| 0 <= i < evs.len() ==> evs[i] != LocalEvent::Exists(false),
    ensures
        forall|i: int| 0 <= i < local_run(s, evs).len() ==> !(#[trigger] local_run(s, evs)[i] is Download),
    decreases evs.len(),
{
    if evs.len() > 0 {
        let (t, a) = local_next(s, evs[0]);
        assert(between_clips(t.phase));
        assert(!(a is Download));
        assert forall|i: int| 0 <= i < evs.drop_first().len() implies evs.drop_first()[i]
            != LocalEvent::Exists(false) by {
            assert(evs.drop_first()[i] == evs[i + 1]);
        }
        lemma_present_files_not_fetched(t, evs.drop_first());
        let r = local_run(s, evs);
        assert forall|i: int| 0 <= i < r.len() implies !(#[trigger] r[i] is Download) by {
            if i > 0 {
                assert(r[i] == local_run(t, evs.drop_first())[i - 1]);
            }
        }
    }
}

/// Three failed upload requests for a clip end the cycle after the cooldown:
/// the remaining clips and sync modules are left to the next cycle.
pub proof fn lemma_upload_failures_end_cycle(s: LocalView, f: Fault)
    requires
        s.phase == LocalPhase::UploadRequest,
        s.attempt == MAX_UPLOAD_REQUESTS,
        f != Fault::AuthExpired,
    ensures
        local_next(s, LocalEvent::Failed(f)).0.phase == LocalPhase::Done,
        local_next(s, LocalEvent::Failed(f)).1 == (ActionView::Finish {
            end: CycleEnd::Completed,
            delay_secs: UPLOAD_COOLDOWN_SECS,
        }),
{
}

} // verus!
