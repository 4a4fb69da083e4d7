//! Core state for driving a filesystem-virtualization daemon: a registry of
//! checked-out paths, the process-wide belief about the daemon (running,
//! mounted, mount point), and the reconciliation and orchestration steps that
//! keep the two converged with the daemon's reported state.
//!
//! Everything here is pure state and decisions. The HTTP calls, the process
//! launch and the event delivery that surround it are left to the embedding
//! program: each mutating step returns the events it publishes, and the
//! orchestration steps return the requests the caller must issue.

use vstd::prelude::*;
use vstd::string::StrSliceExecFns;
use vstd::string::StringExecFns;

pub mod api;
pub mod laws;
pub mod registry;
mod mega_settings;

pub use mega_settings::MegaSettings;
pub use mega_settings::MegaSettingsContent;

verus! {

/// A state transition published to observers.
#[derive(Clone, Debug, PartialEq)]
pub enum Event {
    FuseRunning(bool),
    FuseMounted(Option<String>),
    FuseCheckout(Option<String>),
}

/// The mathematical value of an [`Event`].
pub ghost enum EventV {
    FuseRunning(bool),
    FuseMounted(Option<Seq<char>>),
    FuseCheckout(Option<Seq<char>>),
}

impl View for Event {
    type V = EventV;

    open spec fn view(&self) -> EventV {
        match self {
            Event::FuseRunning(b) => EventV::FuseRunning(*b),
            Event::FuseMounted(p) => EventV::FuseMounted(opt_path_view(p)),
            Event::FuseCheckout(p) => EventV::FuseCheckout(opt_path_view(p)),
        }
    }
}

pub open spec fn opt_path_view(p: &Option<String>) -> Option<Seq<char>> {
    match p {
        Some(s) => Some(s@),
        None => None,
    }
}

pub open spec fn events_view(s: Seq<Event>) -> Seq<EventV> {
    s.map_values(|e: Event| e@)
}

pub open spec fn opt_event_view(e: Option<Event>) -> Option<EventV> {
    match e {
        Some(ev) => Some(ev@),
        None => None,
    }
}

pub struct MegaFuse {}

/// The process-wide core state: the belief about the daemon, the registry of
/// checked-out paths, and the configuration it was created with.
pub struct Mega {
    fuse_executable: String,

    fuse_running: bool,
    fuse_mounted: bool,
    heartbeat: bool,

    mount_point: Option<String>,
    checkout_path: radix_trie::Trie<String, u64>,

    mega_url: String,
    fuse_url: String,
}

/// The mathematical value of a [`Mega`]: its flags, its mount point, and the
/// registry as a map from a path's characters to its remote identifier.
pub ghost struct MegaView {
    pub fuse_executable: Seq<char>,
    pub fuse_running: bool,
    pub fuse_mounted: bool,
    pub heartbeat: bool,
    pub mount_point: Option<Seq<char>>,
    pub registry: Map<Seq<char>, u64>,
    pub mega_url: Seq<char>,
    pub fuse_url: Seq<char>,
}

impl View for Mega {
    type V = MegaView;

    closed spec fn view(&self) -> MegaView {
        MegaView {
            fuse_executable: self.fuse_executable@,
            fuse_running: self.fuse_running,
            fuse_mounted: self.fuse_mounted,
            heartbeat: self.heartbeat,
            mount_point: opt_path_view(&self.mount_point),
            registry: registry::trie_contents(self.checkout_path),
            mega_url: self.mega_url@,
            fuse_url: self.fuse_url@,
        }
    }
}

/// One reconciliation step on the registry: a daemon-reported mount is
/// inserted only when no registered prefix of its path exists yet; a mount
/// already covered leaves the registry as it is, so a more specific local
/// entry is never overwritten by a coarser remote one.
pub open spec fn merge_one(m: Map<Seq<char>, u64>, mi: api::MountInfo) -> Map<Seq<char>, u64> {
    if registry::covers(m, mi.path@) {
        m
    } else {
        m.insert(mi.path@, mi.inode)
    }
}

/// The registry after merging a whole daemon-reported mount list, left to right.
pub open spec fn merge_mounts(m: Map<Seq<char>, u64>, s: Seq<api::MountInfo>) -> Map<Seq<char>, u64>
    decreases s.len(),
{
    if s.len() == 0 {
        m
    } else {
        merge_one(merge_mounts(m, s.drop_last()), s.last())
    }
}

/// The checkout events a merge publishes: one per mount actually inserted, in
/// list order.
pub open spec fn merge_mount_events(m: Map<Seq<char>, u64>, s: Seq<api::MountInfo>) -> Seq<EventV>
    decreases s.len(),
{
    if s.len() == 0 {
        Seq::empty()
    } else {
        let prev = merge_mount_events(m, s.drop_last());
        if registry::covers(merge_mounts(m, s.drop_last()), s.last().path@) {
            prev
        } else {
            prev.push(EventV::FuseCheckout(Some(s.last().path@)))
        }
    }
}

/// What a toggle of the checkouts asks the caller to do: nothing when the
/// daemon is not believed running, else one checkout request per registered
/// path, or one restore request per registered path.
pub enum TogglePlan {
    Idle,
    Checkout(Vec<String>),
    Restore(Vec<String>),
}

/// Why an operation of the core failed.
#[derive(Clone, Copy, Debug, PartialEq, Eq, Structural)]
pub enum MegaError {
    /// A restore was asked for a path with no registry entry covering it.
    NotRegistered,
    /// The daemon answered with a failure, or its answer could not be read.
    OperationFailed,
    /// The daemon executable could not be launched.
    LaunchFailure,
}

/// `paths` lists exactly the registered paths: each element is registered,
/// every registered path occurs, and none occurs twice. The order is not
/// specified.
pub open spec fn lists_registry_paths(paths: Seq<String>, m: Map<Seq<char>, u64>) -> bool {
    &&& forall|i: int| 0 <= i < paths.len() ==> m.contains_key((#[trigger] paths[i])@)
    &&& forall|k: Seq<char>| #[trigger] m.contains_key(k)
        ==> exists|i: int| 0 <= i < paths.len() && (#[trigger] paths[i])@ == k
    &&& forall|i: int, j: int| 0 <= i < j < paths.len() ==> paths[i]@ != paths[j]@
}

/// A relative path resolved against a mount point: joined with a single
/// separator, which the mount point may already end in.
pub open spec fn join_path(base: Seq<char>, rel: Seq<char>) -> Seq<char> {
    if base.len() > 0 && base.last() == '/' {
        base + rel
    } else {
        base + seq!['/'] + rel
    }
}

/// The configuration fields never change after construction.
pub open spec fn same_config(a: MegaView, b: MegaView) -> bool {
    &&& a.fuse_executable == b.fuse_executable
    &&& a.mega_url == b.mega_url
    &&& a.fuse_url == b.fuse_url
}

impl Mega {
    /// Build the initial state: nothing believed running or mounted, the
    /// heartbeat not yet started, an empty registry, and the mount point taken
    /// from the settings only when the caller saw that it exists.
    pub fn new(settings: MegaSettings, mount_point_exists: bool) -> (m: Mega)
        ensures
            m@.fuse_running == false,
            m@.fuse_mounted == false,
            m@.heartbeat == false,
            m@.registry == registry::empty_registry(),
            m@.mount_point == (if mount_point_exists {
                Some(settings.mount_point@)
            } else {
                None::<Seq<char>>
            }),
            m@.fuse_executable == settings.fuse_executable@,
            m@.mega_url == settings.mega_url@,
            m@.fuse_url == settings.fuse_url@,
    {
        let mount_point = if mount_point_exists {
            Some(settings.mount_point)
        } else {
            None
        };
        Mega {
            fuse_executable: settings.fuse_executable,

            fuse_running: false,
            fuse_mounted: false,
            heartbeat: false,

            mount_point,
            checkout_path: registry::trie_new(),

            mega_url: settings.mega_url,
            fuse_url: settings.fuse_url,
        }
    }

    /// The belief about the daemon, as (running, mounted).
    pub fn status(&self) -> (r: (bool, bool))
        ensures
            r.0 == self@.fuse_running,
            r.1 == self@.fuse_mounted,
    {
        (self.fuse_running, self.fuse_mounted)
    }

    /// A path counts as checked out exactly when it, or some registered prefix
    /// of it, has a registry entry.
    pub fn is_path_checkout(&self, path: &String) -> (r: bool)
        ensures
            r == registry::covers(self@.registry, path@),
    {
        registry::trie_get_ancestor_entry(&self.checkout_path, path).is_some()
    }

    /// Decide whether the daemon process must be launched: only when it is not
    /// believed running. The returned value is the executable to launch; the
    /// state itself is untouched (`running` turns true only once a poll sees
    /// the daemon). Calling this again while `running` holds launches nothing.
    pub fn toggle_mount(&self) -> (r: Option<String>)
        ensures
            r is Some <==> !self@.fuse_running,
            match r {
                Some(exe) => exe@ == self@.fuse_executable,
                None => self@.fuse_running,
            },
    {
        if !self.fuse_running {
            Some(self.fuse_executable.clone())
        } else {
            None
        }
    }

    /// Absorb a failed mounts poll: a connectivity or decoding failure means
    /// the daemon cannot be reached, so it is believed stopped and unmounted
    /// and the mount point is cleared. The registry keeps every entry — a
    /// transient failure must not be read as "no longer checked out". The
    /// stopped-state events go out once, only when something was believed up.
    pub fn reconcile_failure(&mut self) -> (events: Vec<Event>)
        ensures
            final(self)@.fuse_running == false,
            final(self)@.fuse_mounted == false,
            final(self)@.mount_point is None,
            final(self)@.heartbeat == old(self)@.heartbeat,
            final(self)@.registry == old(self)@.registry,
            same_config(final(self)@, old(self)@),
            events_view(events@) == (if old(self)@.fuse_running || old(self)@.fuse_mounted {
                seq![
                    EventV::FuseRunning(false),
                    EventV::FuseMounted(None::<Seq<char>>),
                ]
            } else {
                Seq::<EventV>::empty()
            }),
    {
        let was_up = self.fuse_running || self.fuse_mounted;
        self.fuse_running = false;
        self.fuse_mounted = false;
        self.mount_point = None;
        let mut events: Vec<Event> = Vec::new();
        if was_up {
            events.push(Event::FuseRunning(false));
            events.push(Event::FuseMounted(None));
        }
        events
    }

    /// Absorb a successful mounts poll: the daemon answered, so it is believed
    /// running, and every reported mount whose path has no registered prefix
    /// yet is inserted, each with a checkout event for its path. Mounts
    /// already covered are ignored. The registry only grows here: merging
    /// never deletes an entry (see
    /// [`laws::lemma_reconcile_only_adds`](crate::laws::lemma_reconcile_only_adds)).
    pub fn reconcile_mounts(&mut self, mounts: &Vec<api::MountInfo>) -> (events: Vec<Event>)
        ensures
            final(self)@.fuse_running == true,
            final(self)@.fuse_mounted == old(self)@.fuse_mounted,
            final(self)@.mount_point == old(self)@.mount_point,
            final(self)@.heartbeat == old(self)@.heartbeat,
            same_config(final(self)@, old(self)@),
            final(self)@.registry == merge_mounts(old(self)@.registry, mounts@),
            events_view(events@) == merge_mount_events(old(self)@.registry, mounts@),
    {
        self.fuse_running = true;
        let ghost m0 = self@.registry;
        let ghost pre = self@;
        let mut events: Vec<Event> = Vec::new();
        let n = mounts.len();
        let mut idx: usize = 0;
        while idx < n
            invariant
                n == mounts@.len(),
                idx <= n,
                self@.registry == merge_mounts(m0, mounts@.take(idx as int)),
                events_view(events@) == merge_mount_events(m0, mounts@.take(idx as int)),
                self@.fuse_running == pre.fuse_running,
                self@.fuse_mounted == pre.fuse_mounted,
                self@.mount_point == pre.mount_point,
                self@.heartbeat == pre.heartbeat,
                same_config(self@, pre),
            decreases n - idx,
        {
            let mi = &mounts[idx];
            let ghost events_before = events@;
            let existing = registry::trie_get_ancestor_entry(&self.checkout_path, &mi.path);
            if existing.is_none() {
                registry::trie_insert(&mut self.checkout_path, mi.path.clone(), mi.inode);
                events.push(Event::FuseCheckout(Some(mi.path.clone())));
                proof {
                    assert(events_view(events@) =~= events_view(events_before).push(
                        EventV::FuseCheckout(Some(mounts@[idx as int].path@)),
                    ));
                }
            }
            proof {
                assert(mounts@.take(idx + 1).drop_last() =~= mounts@.take(idx as int));
                assert(mounts@.take(idx + 1).last() == mounts@[idx as int]);
            }
            idx = idx + 1;
        }
        proof {
            assert(mounts@.take(n as int) =~= mounts@);
        }
        events
    }

    /// Absorb the daemon's reported mount path. When mounted and running with
    /// a mount point that differs from the report, the reported value is
    /// adopted; when running with no mount point yet, it is adopted as well.
    /// In either case a mounted event carries the new value; otherwise
    /// nothing changes and nothing is published.
    pub fn reconcile_config(&mut self, mount_path: String) -> (e: Option<Event>)
        ensures
            final(self)@.fuse_running == old(self)@.fuse_running,
            final(self)@.fuse_mounted == old(self)@.fuse_mounted,
            final(self)@.heartbeat == old(self)@.heartbeat,
            final(self)@.registry == old(self)@.registry,
            same_config(final(self)@, old(self)@),
            (if old(self)@.fuse_mounted && old(self)@.fuse_running
                && old(self)@.mount_point is Some
                && old(self)@.mount_point != Some(mount_path@) {
                &&& final(self)@.mount_point == Some(mount_path@)
                &&& opt_event_view(e) == Some(EventV::FuseMounted(Some(mount_path@)))
            } else if old(self)@.fuse_running && old(self)@.mount_point is None {
                &&& final(self)@.mount_point == Some(mount_path@)
                &&& opt_event_view(e) == Some(EventV::FuseMounted(Some(mount_path@)))
            } else {
                &&& final(self)@.mount_point == old(self)@.mount_point
                &&& e is None
            }),
    {
        let differs = self.fuse_mounted && self.fuse_running && (match &self.mount_point {
            Some(inner) => !inner.eq(&mount_path),
            None => false,
        });
        if differs || (self.fuse_running && self.mount_point.is_none()) {
            self.mount_point = Some(mount_path.clone());
            Some(Event::FuseMounted(Some(mount_path)))
        } else {
            None
        }
    }

    /// Decide a toggle of the checkouts. Nothing happens while the daemon is
    /// not believed running. Otherwise, when unmounted, the mounted flag is
    /// set, a mounted event carries the current mount point, and the caller
    /// is asked to issue one checkout request per registered path; when
    /// mounted, the flag is cleared and the caller is asked to issue one
    /// restore request per registered path. The restore branch publishes no
    /// mounted event — an asymmetry with the mount branch that is kept
    /// deliberately, as the behaviour observers rely on.
    pub fn toggle_fuse(&mut self) -> (r: (TogglePlan, Vec<Event>))
        ensures
            final(self)@.fuse_running == old(self)@.fuse_running,
            final(self)@.heartbeat == old(self)@.heartbeat,
            final(self)@.mount_point == old(self)@.mount_point,
            final(self)@.registry == old(self)@.registry,
            same_config(final(self)@, old(self)@),
            (if !old(self)@.fuse_running {
                &&& final(self)@.fuse_mounted == old(self)@.fuse_mounted
                &&& r.0 is Idle
                &&& r.1@.len() == 0
            } else if !old(self)@.fuse_mounted {
                &&& final(self)@.fuse_mounted == true
                &&& (r.0 matches TogglePlan::Checkout(paths)
                    && lists_registry_paths(paths@, old(self)@.registry))
                &&& events_view(r.1@) == seq![EventV::FuseMounted(old(self)@.mount_point)]
            } else {
                &&& final(self)@.fuse_mounted == false
                &&& (r.0 matches TogglePlan::Restore(paths)
                    && lists_registry_paths(paths@, old(self)@.registry))
                &&& r.1@.len() == 0
            }),
    {
        if !self.fuse_running {
            return (TogglePlan::Idle, Vec::new());
        }

        let pairs = registry::trie_pairs(&self.checkout_path);
        let mut paths: Vec<String> = Vec::new();
        let n = pairs.len();
        let mut i: usize = 0;
        while i < n
            invariant
                n == pairs@.len(),
                i <= n,
                paths@.len() == i as int,
                forall|j: int| 0 <= j < i as int ==> (#[trigger] paths@[j])@ == pairs@[j].0@,
            decreases n - i,
        {
            paths.push(pairs[i].0.clone());
            i = i + 1;
        }
        proof {
            assert forall|k: Seq<char>| #[trigger] self@.registry.contains_key(k)
                implies exists|j: int| 0 <= j < paths@.len() && (#[trigger] paths@[j])@ == k by {
                let j0 = choose|j0: int| 0 <= j0 < pairs@.len() && (#[trigger] pairs@[j0]).0@ == k;
                assert(paths@[j0]@ == k);
            }
            assert(lists_registry_paths(paths@, self@.registry));
        }

        if !self.fuse_mounted {
            self.fuse_mounted = true;
            let mp = match &self.mount_point {
                Some(p) => Some(p.clone()),
                None => None,
            };
            let mut events: Vec<Event> = Vec::new();
            events.push(Event::FuseMounted(mp));
            proof {
                assert(events_view(events@) =~= seq![EventV::FuseMounted(old(self)@.mount_point)]);
            }
            (TogglePlan::Checkout(paths), events)
        } else {
            self.fuse_mounted = false;
            (TogglePlan::Restore(paths), Vec::new())
        }
    }

    /// The request a checkout of this path must send.
    pub fn checkout_path(&self, path: &String) -> (r: api::MountRequest)
        ensures
            r.path@ == path@,
    {
        api::MountRequest { path: path.clone() }
    }

    /// Take a confirmed checkout into the registry: the daemon's descriptor
    /// is inserted as it was reported, and the confirmed path goes out as a
    /// checkout event.
    pub fn commit_checkout(&mut self, mount: &api::MountInfo) -> (e: Event)
        ensures
            final(self)@.fuse_running == old(self)@.fuse_running,
            final(self)@.fuse_mounted == old(self)@.fuse_mounted,
            final(self)@.heartbeat == old(self)@.heartbeat,
            final(self)@.mount_point == old(self)@.mount_point,
            same_config(final(self)@, old(self)@),
            final(self)@.registry == old(self)@.registry.insert(mount.path@, mount.inode),
            e@ == EventV::FuseCheckout(Some(mount.path@)),
    {
        registry::trie_insert(&mut self.checkout_path, mount.path.clone(), mount.inode);
        Event::FuseCheckout(Some(mount.path.clone()))
    }

    /// The request a restore of this path must send: the path together with
    /// the remote identifier of its registry entry — the entry for the
    /// longest registered prefix of the path. A path that no entry covers
    /// cannot be restored; that is the `NotRegistered` failure, and the state
    /// is left untouched either way.
    pub fn restore_path(&self, path: &String) -> (r: Result<api::UmountRequest, MegaError>)
        ensures
            r is Ok <==> registry::covers(self@.registry, path@),
            (match r {
                Ok(req) => {
                    &&& (match req.path {
                        Some(p) => p@ == path@,
                        None => false,
                    })
                    &&& (match req.inode {
                        Some(v) => exists|k: Seq<char>|
                            registry::is_longest_prefix_entry(self@.registry, path@, k)
                            && self@.registry[k] == v,
                        None => false,
                    })
                },
                Err(err) => err == MegaError::NotRegistered,
            }),
    {
        match registry::trie_get_ancestor_entry(&self.checkout_path, path) {
            Some(entry) => Ok(api::UmountRequest {
                path: Some(path.clone()),
                inode: Some(entry.1),
            }),
            None => Err(MegaError::NotRegistered),
        }
    }

    /// Take a confirmed restore out of the registry: the entry that covered
    /// the path — the one whose identifier the restore was issued with — is
    /// removed, and a checkout event with no path goes out. When nothing
    /// covers the path any more, nothing changes and nothing is published.
    pub fn commit_restore(&mut self, path: &String) -> (e: Option<Event>)
        ensures
            final(self)@.fuse_running == old(self)@.fuse_running,
            final(self)@.fuse_mounted == old(self)@.fuse_mounted,
            final(self)@.heartbeat == old(self)@.heartbeat,
            final(self)@.mount_point == old(self)@.mount_point,
            same_config(final(self)@, old(self)@),
            (if registry::covers(old(self)@.registry, path@) {
                &&& (exists|k: Seq<char>|
                    registry::is_longest_prefix_entry(old(self)@.registry, path@, k)
                    && final(self)@.registry == old(self)@.registry.remove(k))
                &&& opt_event_view(e) == Some(EventV::FuseCheckout(None::<Seq<char>>))
            } else {
                &&& final(self)@.registry == old(self)@.registry
                &&& e is None
            }),
    {
        match registry::trie_get_ancestor_entry(&self.checkout_path, path) {
            Some(entry) => {
                registry::trie_remove(&mut self.checkout_path, &entry.0);
                Some(Event::FuseCheckout(None))
            },
            None => None,
        }
    }

    /// Record an anticipated checkout before the daemon confirms it: the
    /// relative path is resolved against the configured mount point and
    /// inserted with the given identifier. With no mount point configured,
    /// nothing happens. The published checkout event carries no path — only
    /// a confirmed checkout announces one.
    pub fn mark_checkout(&mut self, path: String, inode: u64) -> (e: Option<Event>)
        ensures
            final(self)@.fuse_running == old(self)@.fuse_running,
            final(self)@.fuse_mounted == old(self)@.fuse_mounted,
            final(self)@.heartbeat == old(self)@.heartbeat,
            final(self)@.mount_point == old(self)@.mount_point,
            same_config(final(self)@, old(self)@),
            (match old(self)@.mount_point {
                Some(base) => {
                    &&& final(self)@.registry
                        == old(self)@.registry.insert(join_path(base, path@), inode)
                    &&& opt_event_view(e) == Some(EventV::FuseCheckout(None::<Seq<char>>))
                },
                None => {
                    &&& final(self)@.registry == old(self)@.registry
                    &&& e is None
                },
            }),
    {
        let full_opt: Option<String> = match &self.mount_point {
            Some(mp) => {
                let mut full = mp.clone();
                let len = full.as_str().unicode_len();
                let needs_sep = if len == 0 {
                    true
                } else {
                    full.as_str().get_char(len - 1) != '/'
                };
                if needs_sep {
                    proof {
                        reveal_strlit("/");
                        assert("/"@ =~= seq!['/']);
                    }
                    full.append("/");
                }
                full.append(path.as_str());
                Some(full)
            },
            None => None,
        };
        match full_opt {
            Some(full) => {
                registry::trie_insert(&mut self.checkout_path, full, inode);
                Some(Event::FuseCheckout(None))
            },
            None => None,
        }
    }

    /// Record an acknowledged commit: the exact entry for the path is
    /// removed — removing an absent path is a no-op — and a checkout event
    /// with no path goes out.
    pub fn mark_commited(&mut self, path: &String) -> (e: Event)
        ensures
            final(self)@.fuse_running == old(self)@.fuse_running,
            final(self)@.fuse_mounted == old(self)@.fuse_mounted,
            final(self)@.heartbeat == old(self)@.heartbeat,
            final(self)@.mount_point == old(self)@.mount_point,
            same_config(final(self)@, old(self)@),
            final(self)@.registry == old(self)@.registry.remove(path@),
            e@ == EventV::FuseCheckout(None::<Seq<char>>),
    {
        registry::trie_remove(&mut self.checkout_path, path);
        Event::FuseCheckout(None)
    }

    /// The body a configuration update sends: every field left `None`, so the
    /// daemon's configuration is not changed.
    pub fn set_fuse_config(&self) -> (r: api::ConfigRequest)
        ensures
            r.mega_url is None,
            r.mount_path is None,
            r.store_path is None,
    {
        api::ConfigRequest {
            mega_url: None,
            mount_path: None,
            store_path: None,
        }
    }

    /// Claim the heartbeat loop: the guard flag is set, and the caller may run
    /// the loop only when `started` comes back true, so at most one loop is
    /// ever active. Asking again while the flag holds is a no-op.
    pub fn heartbeat(&mut self) -> (started: bool)
        ensures
            final(self)@.heartbeat == true,
            started == !old(self)@.heartbeat,
            final(self)@.fuse_running == old(self)@.fuse_running,
            final(self)@.fuse_mounted == old(self)@.fuse_mounted,
            final(self)@.mount_point == old(self)@.mount_point,
            final(self)@.registry == old(self)@.registry,
            same_config(final(self)@, old(self)@),
    {
        if self.heartbeat {
            false
        } else {
            self.heartbeat = true;
            true
        }
    }
}

} // verus!
