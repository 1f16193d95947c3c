//! Shared server state: the session registry, the transfer gate, the latest
//! load report, the broadcast hub and the offload policy.
use vstd::prelude::*;

use crate::auth::JwtAuth;
use crate::filebrowser::FilebrowserClient;
use crate::load::{load_report, sample_load};
use crate::protocol::{ClientCapabilities, LoadHint, OffloadTask, ServerLoad, ServerMessage};

verus! {

/// The sending end of a broadcast channel.
#[verifier::external_type_specification]
#[verifier::external_body]
#[verifier::reject_recursive_types(T)]
pub struct ExSender<T>(tokio::sync::broadcast::Sender<T>);

/// A receiving end of a broadcast channel.
#[verifier::external_type_specification]
#[verifier::external_body]
#[verifier::reject_recursive_types(T)]
pub struct ExReceiver<T>(tokio::sync::broadcast::Receiver<T>);

/// Relies on `tokio::sync::broadcast::channel`: a bounded multi-subscriber
/// channel holding the capacity rounded up to a power of two; it panics on a
/// capacity of 0 or above `usize::MAX >> 1`.
pub assume_specification<T: Clone>[ tokio::sync::broadcast::channel::<T> ](capacity: usize) -> (
    tokio::sync::broadcast::Sender<T>,
    tokio::sync::broadcast::Receiver<T>,
)
    requires
        0 < capacity <= usize::MAX / 2,
;

/// Relies on `tokio::sync::broadcast::Sender::subscribe`: a new receiver of
/// every message sent after this call (it panics only past `usize::MAX >> 2`
/// receivers at once).
pub assume_specification<T>[ tokio::sync::broadcast::Sender::<T>::subscribe ](
    tx: &tokio::sync::broadcast::Sender<T>,
) -> tokio::sync::broadcast::Receiver<T>;

/// Relies on `tokio::sync::broadcast::Sender::send`: enqueues a message for
/// every current subscriber without waiting; a subscriber that falls behind
/// loses its oldest messages. With no subscriber the message is dropped.
#[verifier::external_body]
fn publish(tx: &tokio::sync::broadcast::Sender<ServerMessage>, msg: ServerMessage) {
    let _ = tx.send(msg);
}

/// Capacity of the server-wide broadcast hub: a power of two, so that the
/// hub holds at most this many messages; each session's subscription is
/// its outbound queue, so no session falls more than this far behind.
pub const HUB_CAPACITY: usize = 32;

/// Least free memory (MB) of a client that may take offloaded work.
pub const OFFLOAD_MIN_RAM_MB: u64 = 500;

/// Least CPU cores of a client that may take CPU-heavy offloaded work.
pub const OFFLOAD_MIN_CORES: u32 = 4;

/// A connected, authenticated client.
pub struct ConnectedClient {
    pub id: String,
    pub username: String,
    pub capabilities: Option<ClientCapabilities>,
}

/// What the registry records of a session.
pub struct SessionView {
    pub username: Seq<char>,
    pub capabilities: Option<ClientCapabilities>,
}

impl ConnectedClient {
    /// The registry's record of this client.
    pub open spec fn record(&self) -> SessionView {
        SessionView { username: self.username@, capabilities: self.capabilities }
    }
}

/// Whether a client with these capabilities may take the task: on AC power,
/// with 500 MB free, and able to do the task (thumbnails: the feature and a
/// GPU or 4 cores; search: the feature and 4 cores).
pub open spec fn qualifies(caps: Option<ClientCapabilities>, task: OffloadTask) -> bool {
    match caps {
        None => false,
        Some(c) => c.on_ac_power && c.ram_free_mb >= OFFLOAD_MIN_RAM_MB && match task {
            OffloadTask::Thumbnail { .. } => c.can_generate_thumbnails && (c.has_gpu || c.cpu_cores
                >= OFFLOAD_MIN_CORES),
            OffloadTask::Search { .. } => c.can_search_locally && c.cpu_cores >= OFFLOAD_MIN_CORES,
        },
    }
}

/// Whether a client's capabilities qualify it for a task.
pub fn can_take(caps: &Option<ClientCapabilities>, task: &OffloadTask) -> (r: bool)
    ensures
        r == qualifies(*caps, *task),
{
    match caps {
        None => false,
        Some(c) => {
            if !c.on_ac_power || c.ram_free_mb < OFFLOAD_MIN_RAM_MB {
                return false;
            }
            match task {
                OffloadTask::Thumbnail { .. } => c.can_generate_thumbnails && (c.has_gpu
                    || c.cpu_cores >= OFFLOAD_MIN_CORES),
                OffloadTask::Search { .. } => c.can_search_locally && c.cpu_cores
                    >= OFFLOAD_MIN_CORES,
            }
        },
    }
}

/// One call of the transfer gate.
pub enum TransferOp {
    Start,
    End,
}

/// The counter and the answer after one call of the transfer gate.
pub open spec fn transfer_step(active: u32, max: u32, op: TransferOp) -> (u32, bool) {
    match op {
        TransferOp::Start => if active < max {
            ((active + 1) as u32, true)
        } else {
            (active, false)
        },
        TransferOp::End => if active > 0 {
            ((active - 1) as u32, true)
        } else {
            (0, true)
        },
    }
}

/// The counter after a sequence of calls of the transfer gate.
pub open spec fn run_transfers(active: u32, max: u32, ops: Seq<TransferOp>) -> u32
    decreases ops.len(),
{
    if ops.len() == 0 {
        active
    } else {
        run_transfers(transfer_step(active, max, ops[0]).0, max, ops.drop_first())
    }
}

/// Whatever the calls of the transfer gate and their order, the counter
/// stays within `0..=max`, and every step keeps it there; a start reports
/// success exactly when it counted the transfer.
pub proof fn lemma_transfer_bound(active: u32, max: u32, ops: Seq<TransferOp>)
    requires
        active <= max,
    ensures
        run_transfers(active, max, ops) <= max,
        forall|op: TransferOp|
            #![auto]
            transfer_step(active, max, op).0 <= max && (op is Start ==> (transfer_step(
                active,
                max,
                op,
            ).1 <==> transfer_step(active, max, op).0 == active + 1)),
    decreases ops.len(),
{
    if ops.len() > 0 {
        lemma_transfer_bound(transfer_step(active, max, ops[0]).0, max, ops.drop_first());
    }
}

/// Whether two states have the same token authority, backend client,
/// report interval, latest load report and hub messages.
pub open spec fn same_services(a: AppState, b: AppState) -> bool {
    &&& a.token_authority() == b.token_authority()
    &&& a.backend_client() == b.backend_client()
    &&& a.interval() == b.interval()
    &&& a.latest_load() == b.latest_load()
    &&& a.published() == b.published()
}

/// The load report as a new value.
fn copy_load(l: &ServerLoad) -> (r: ServerLoad)
    ensures
        r.cpu_hundredths == l.cpu_hundredths,
        r.ram_free_mb == l.ram_free_mb,
        r.io_busy == l.io_busy,
        r.hints@ == l.hints@,
{
    let mut hints: Vec<LoadHint> = Vec::new();
    for i in 0..l.hints.len()
        invariant
            hints@ == l.hints@.take(i as int),
    {
        hints.push(l.hints[i]);
        assert(l.hints@.take(i + 1) == l.hints@.take(i as int).push(l.hints@[i as int]));
    }
    assert(l.hints@.take(l.hints@.len() as int) == l.hints@);
    ServerLoad {
        cpu_hundredths: l.cpu_hundredths,
        ram_free_mb: l.ram_free_mb,
        io_busy: l.io_busy,
        hints,
    }
}

/// Shared state of the daemon.
pub struct AppState {
    /// The token authority.
    pub jwt_auth: JwtAuth,
    /// The backend client.
    pub fb_client: FilebrowserClient,
    clients: Vec<ConnectedClient>,
    registry: Ghost<Map<Seq<char>, SessionView>>,
    hub_log: Ghost<Seq<ServerMessage>>,
    /// The latest load report.
    pub load: ServerLoad,
    max_concurrent_transfers: u32,
    active_transfers: u32,
    /// Seconds between load reports.
    pub load_report_interval: u64,
    /// The server-wide broadcast hub.
    pub event_tx: tokio::sync::broadcast::Sender<ServerMessage>,
}

impl AppState {
    /// The registered sessions, by id.
    pub closed spec fn sessions(&self) -> Map<Seq<char>, SessionView> {
        self.registry@
    }

    /// The token authority.
    pub closed spec fn token_authority(&self) -> JwtAuth {
        self.jwt_auth
    }

    /// The token authority.
    pub fn jwt(&self) -> (r: &JwtAuth)
        ensures
            *r == self.token_authority(),
    {
        &self.jwt_auth
    }

    /// The backend client.
    pub closed spec fn backend_client(&self) -> FilebrowserClient {
        self.fb_client
    }

    /// The backend client.
    pub fn backend(&self) -> (r: &FilebrowserClient)
        ensures
            *r == self.backend_client(),
    {
        &self.fb_client
    }

    /// Every message handed to the hub so far, oldest first.
    pub closed spec fn published(&self) -> Seq<ServerMessage> {
        self.hub_log@
    }

    /// The latest load report.
    pub closed spec fn latest_load(&self) -> ServerLoad {
        self.load
    }

    /// Seconds between load reports.
    pub closed spec fn interval(&self) -> u64 {
        self.load_report_interval
    }

    /// Transfers in progress.
    pub closed spec fn active(&self) -> u32 {
        self.active_transfers
    }

    /// Most transfers allowed at once.
    pub closed spec fn max_transfers(&self) -> u32 {
        self.max_concurrent_transfers
    }

    /// The state's invariant: at most `max` transfers; the registry lists
    /// each client once, by id.
    pub closed spec fn wf(&self) -> bool {
        &&& self.active_transfers <= self.max_concurrent_transfers
        &&& forall|i: int, j: int|
            0 <= i < j < self.clients.len() ==> self.clients[i].id@ != self.clients[j].id@
        &&& forall|i: int|
            0 <= i < self.clients.len() ==> #[trigger] self.registry@.contains_key(
                self.clients[i].id@,
            ) && self.registry@[self.clients[i].id@] == self.clients[i].record()
        &&& forall|k: Seq<char>|
            #[trigger] self.registry@.contains_key(k) ==> exists|i: int|
                0 <= i < self.clients.len() && self.clients[i].id@ == k
    }

    /// A fresh state: no sessions, no transfers, an empty load report.
    pub fn new(
        jwt_auth: JwtAuth,
        fb_client: FilebrowserClient,
        max_concurrent_transfers: u32,
        load_report_interval: u64,
    ) -> (r: Self)
        ensures
            r.wf(),
            r.sessions() == Map::<Seq<char>, SessionView>::empty(),
            r.active() == 0,
            r.max_transfers() == max_concurrent_transfers,
            r.interval() == load_report_interval,
            r.published() == Seq::<ServerMessage>::empty(),
            r.token_authority() == jwt_auth,
            r.backend_client() == fb_client,
            r.latest_load().cpu_hundredths == 0 && r.latest_load().ram_free_mb == 0
                && !r.latest_load().io_busy && r.latest_load().hints@.len() == 0,
    {
        let (event_tx, _) = tokio::sync::broadcast::channel(HUB_CAPACITY);
        AppState {
            jwt_auth,
            fb_client,
            clients: Vec::new(),
            registry: Ghost(Map::empty()),
            hub_log: Ghost(Seq::empty()),
            load: ServerLoad { cpu_hundredths: 0, ram_free_mb: 0, io_busy: false, hints: Vec::new() },
            max_concurrent_transfers,
            active_transfers: 0,
            load_report_interval,
            event_tx,
        }
    }

    /// The position of the client with this id, if registered.
    fn position(&self, id: &str) -> (r: Option<usize>)
        requires
            self.wf(),
        ensures
            match r {
                Some(i) => i < self.clients.len() && self.clients[i as int].id@ == id@,
                None => !self.sessions().contains_key(id@),
            },
    {
        for i in 0..self.clients.len()
            invariant
                self.wf(),
                forall|j: int| 0 <= j < i ==> self.clients[j].id@ != id@,
        {
            if crate::text::str_eq(self.clients[i].id.as_str(), id) {
                return Some(i);
            }
        }
        None
    }

    /// Register a session; a second registration under the same id replaces
    /// the first. Returns the session's subscription to the hub.
    pub fn register_client(&mut self, id: String, username: String) -> (r:
        tokio::sync::broadcast::Receiver<ServerMessage>)
        requires
            old(self).wf(),
        ensures
            same_services(*final(self), *old(self)),
            final(self).wf(),
            final(self).sessions() == old(self).sessions().insert(
                id@,
                SessionView { username: username@, capabilities: None },
            ),
            final(self).active() == old(self).active(),
            final(self).max_transfers() == old(self).max_transfers(),
    {
        let receiver = self.event_tx.subscribe();
        let ghost rec = SessionView { username: username@, capabilities: None };
        let ghost key = id@;
        let client = ConnectedClient { id, username, capabilities: None };
        assert(client.record() == rec);
        match self.position(client.id.as_str()) {
            Some(i) => {
                let ghost before = self.clients@;
                self.clients.set(i, client);
                self.registry = Ghost(self.registry@.insert(key, rec));
                assert forall|a: int, b: int|
                    0 <= a < b < self.clients.len() implies self.clients[a].id@
                    != self.clients[b].id@ by {
                    assert(self.clients[a].id@ == before[a].id@);
                    assert(self.clients[b].id@ == before[b].id@);
                }
                assert forall|a: int| 0 <= a < self.clients.len() implies #[trigger]
                    self.registry@.contains_key(self.clients[a].id@)
                        && self.registry@[self.clients[a].id@] == self.clients[a].record() by {
                    if a != i {
                        assert(self.clients[a] == before[a]);
                        assert(before[a].id@ != before[i as int].id@);
                        assert(old(self).registry@.contains_key(before[a].id@));
                    }
                }
                assert forall|k: Seq<char>| #[trigger]
                    self.registry@.contains_key(k) implies exists|j: int|
                        0 <= j < self.clients.len() && self.clients[j].id@ == k by {
                    if k != key {
                        let j = choose|j: int|
                            0 <= j < old(self).clients.len() && old(self).clients[j].id@ == k;
                        assert(self.clients[j].id@ == k);
                    } else {
                        assert(self.clients[i as int].id@ == k);
                    }
                }
            },
            None => {
                proof {
                    assert forall|j: int| 0 <= j < self.clients.len() implies self.clients[j].id@
                        != key by {
                        assert(self.registry@.contains_key(self.clients[j].id@));
                    }
                }
                let ghost before = self.clients@;
                self.clients.push(client);
                self.registry = Ghost(self.registry@.insert(key, rec));
                assert forall|a: int, b: int|
                    0 <= a < b < self.clients.len() implies self.clients[a].id@
                    != self.clients[b].id@ by {
                    assert(self.clients[a] == before[a]);
                    if b < before.len() {
                        assert(self.clients[b] == before[b]);
                    }
                }
                assert forall|a: int| 0 <= a < self.clients.len() implies #[trigger]
                    self.registry@.contains_key(self.clients[a].id@)
                        && self.registry@[self.clients[a].id@] == self.clients[a].record() by {
                    if a < before.len() {
                        assert(self.clients[a] == before[a]);
                        assert(old(self).registry@.contains_key(before[a].id@));
                    }
                }
                assert forall|k: Seq<char>| #[trigger]
                    self.registry@.contains_key(k) implies exists|j: int|
                        0 <= j < self.clients.len() && self.clients[j].id@ == k by {
                    if k != key {
                        let j = choose|j: int|
                            0 <= j < old(self).clients.len() && old(self).clients[j].id@ == k;
                        assert(self.clients[j].id@ == k);
                    } else {
                        assert(self.clients[self.clients.len() - 1].id@ == k);
                    }
                }
            },
        }
        receiver
    }

    /// Remove a session, if registered.
    pub fn unregister_client(&mut self, id: &str)
        requires
            old(self).wf(),
        ensures
            same_services(*final(self), *old(self)),
            final(self).wf(),
            final(self).sessions() == old(self).sessions().remove(id@),
            final(self).active() == old(self).active(),
            final(self).max_transfers() == old(self).max_transfers(),
    {
        match self.position(id) {
            None => {
                assert(self.registry@.remove(id@) =~= self.registry@);
            },
            Some(i) => {
                let ghost before = self.clients@;
                self.clients.remove(i);
                self.registry = Ghost(self.registry@.remove(id@));
                assert forall|a: int, b: int|
                    0 <= a < b < self.clients.len() implies self.clients[a].id@
                    != self.clients[b].id@ by {
                    let a0 = if a < i { a } else { a + 1 };
                    let b0 = if b < i { b } else { b + 1 };
                    assert(self.clients[a] == before[a0]);
                    assert(self.clients[b] == before[b0]);
                }
                assert forall|a: int| 0 <= a < self.clients.len() implies #[trigger]
                    self.registry@.contains_key(self.clients[a].id@) && self.registry@[self.clients[a].id@]
                        == self.clients[a].record() by {
                    let a0 = if a < i { a } else { a + 1 };
                    assert(self.clients[a] == before[a0]);
                    assert(before[a0].id@ != before[i as int].id@);
                    assert(old(self).registry@.contains_key(before[a0].id@));
                }
                assert forall|k: Seq<char>| #[trigger]
                    self.registry@.contains_key(k) implies exists|j: int|
                        0 <= j < self.clients.len() && self.clients[j].id@ == k by {
                    let j0 = choose|j: int| 0 <= j < before.len() && before[j].id@ == k;
                    assert(j0 != i);
                    let j = if j0 < i { j0 } else { j0 - 1 };
                    assert(self.clients[j] == before[j0]);
                }
            },
        }
    }

    /// Record a session's capabilities; nothing happens for an unknown id.
    pub fn update_client_capabilities(&mut self, id: &str, caps: ClientCapabilities)
        requires
            old(self).wf(),
        ensures
            same_services(*final(self), *old(self)),
            final(self).wf(),
            old(self).sessions().contains_key(id@) ==> final(self).sessions() == old(
                self,
            ).sessions().insert(
                id@,
                SessionView {
                    username: old(self).sessions()[id@].username,
                    capabilities: Some(caps),
                },
            ),
            !old(self).sessions().contains_key(id@) ==> final(self).sessions() == old(
                self,
            ).sessions(),
            final(self).active() == old(self).active(),
            final(self).max_transfers() == old(self).max_transfers(),
    {
        match self.position(id) {
            None => {},
            Some(i) => {
                let ghost before = self.clients@;
                let ghost rec = SessionView {
                    username: before[i as int].username@,
                    capabilities: Some(caps),
                };
                let mut client = self.clients.remove(i);
                client.capabilities = Some(caps);
                self.clients.insert(i, client);
                assert(self.clients@ == before.update(i as int, client));
                assert(self.registry@.contains_key(id@));
                self.registry = Ghost(self.registry@.insert(id@, rec));
                assert forall|a: int, b: int|
                    0 <= a < b < self.clients.len() implies self.clients[a].id@
                    != self.clients[b].id@ by {
                    assert(self.clients[a].id@ == before[a].id@);
                    assert(self.clients[b].id@ == before[b].id@);
                }
                assert forall|a: int| 0 <= a < self.clients.len() implies #[trigger]
                    self.registry@.contains_key(self.clients[a].id@)
                        && self.registry@[self.clients[a].id@] == self.clients[a].record() by {
                    if a != i {
                        assert(self.clients[a] == before[a]);
                        assert(before[a].id@ != before[i as int].id@);
                        assert(old(self).registry@.contains_key(before[a].id@));
                    } else {
                        assert(old(self).registry@.contains_key(before[a].id@));
                    }
                }
                assert forall|k: Seq<char>| #[trigger]
                    self.registry@.contains_key(k) implies exists|j: int|
                        0 <= j < self.clients.len() && self.clients[j].id@ == k by {
                    let j = choose|j: int|
                        0 <= j < before.len() && before[j].id@ == k;
                    assert(self.clients[j].id@ == k);
                }
            },
        }
    }

    /// Whether another transfer may start.
    pub fn can_start_transfer(&self) -> (r: bool)
        ensures
            r == (self.active() < self.max_transfers()),
    {
        self.active_transfers < self.max_concurrent_transfers
    }

    /// Count a transfer in if the bound allows it; reports whether it did.
    pub fn start_transfer(&mut self) -> (r: bool)
        requires
            old(self).wf(),
        ensures
            same_services(*final(self), *old(self)),
            final(self).wf(),
            (final(self).active(), r) == transfer_step(
                old(self).active(),
                old(self).max_transfers(),
                TransferOp::Start,
            ),
            final(self).max_transfers() == old(self).max_transfers(),
            final(self).sessions() == old(self).sessions(),
    {
        if self.can_start_transfer() {
            self.active_transfers = self.active_transfers + 1;
            true
        } else {
            false
        }
    }

    /// Count a transfer out; the counter does not go below 0.
    pub fn end_transfer(&mut self)
        requires
            old(self).wf(),
        ensures
            same_services(*final(self), *old(self)),
            final(self).wf(),
            final(self).active() == transfer_step(
                old(self).active(),
                old(self).max_transfers(),
                TransferOp::End,
            ).0,
            final(self).max_transfers() == old(self).max_transfers(),
            final(self).sessions() == old(self).sessions(),
    {
        if self.active_transfers > 0 {
            self.active_transfers = self.active_transfers - 1;
        }
    }

    /// Transfers in progress.
    pub fn active_transfers(&self) -> (r: u32)
        ensures
            r == self.active(),
    {
        self.active_transfers
    }

    /// Most transfers allowed at once.
    pub fn max_concurrent_transfers(&self) -> (r: u32)
        ensures
            r == self.max_transfers(),
    {
        self.max_concurrent_transfers
    }

    /// Send a message to every subscriber of the hub; never waits.
    pub fn broadcast(&mut self, msg: ServerMessage)
        requires
            old(self).wf(),
        ensures
            final(self).wf(),
            final(self).published() == old(self).published().push(msg),
            final(self).sessions() == old(self).sessions(),
            final(self).active() == old(self).active(),
            final(self).max_transfers() == old(self).max_transfers(),
            final(self).token_authority() == old(self).token_authority(),
            final(self).backend_client() == old(self).backend_client(),
            final(self).interval() == old(self).interval(),
            final(self).latest_load() == old(self).latest_load(),
    {
        let ghost m = msg;
        publish(&self.event_tx, msg);
        self.hub_log = Ghost(self.hub_log@.push(m));
    }

    /// Store the load report for a sample (CPU in hundredths of a percent,
    /// available memory in bytes) and broadcast it.
    pub fn record_load(&mut self, cpu_hundredths: u32, available_bytes: u64)
        requires
            old(self).wf(),
        ensures
            final(self).wf(),
            load_report(final(self).latest_load(), cpu_hundredths, (available_bytes / 1024 / 1024) as u64),
            final(self).published().len() == old(self).published().len() + 1,
            final(self).published().drop_last() == old(self).published(),
            final(self).published().last() matches ServerMessage::Load(l) && load_report(
                l,
                cpu_hundredths,
                (available_bytes / 1024 / 1024) as u64,
            ),
            final(self).sessions() == old(self).sessions(),
            final(self).active() == old(self).active(),
            final(self).max_transfers() == old(self).max_transfers(),
            final(self).token_authority() == old(self).token_authority(),
            final(self).backend_client() == old(self).backend_client(),
            final(self).interval() == old(self).interval(),
    {
        self.load = sample_load(cpu_hundredths, available_bytes);
        let report = copy_load(&self.load);
        self.broadcast(ServerMessage::Load(report));
    }

    /// Some registered session whose capabilities qualify it for the task, if
    /// any does.
    pub fn find_offload_candidate(&self, task: &OffloadTask) -> (r: Option<&ConnectedClient>)
        requires
            self.wf(),
        ensures
            match r {
                Some(c) => self.sessions().contains_key(c.id@) && self.sessions()[c.id@] == c.record()
                    && qualifies(c.capabilities, *task),
                None => forall|k: Seq<char>|
                    #[trigger] self.sessions().contains_key(k) ==> !qualifies(
                        self.sessions()[k].capabilities,
                        *task,
                    ),
            },
    {
        for i in 0..self.clients.len()
            invariant
                self.wf(),
                forall|j: int| 0 <= j < i ==> !qualifies(self.clients[j].capabilities, *task),
        {
            if can_take(&self.clients[i].capabilities, task) {
                return Some(&self.clients[i]);
            }
        }
        assert forall|k: Seq<char>| #[trigger] self.sessions().contains_key(k) implies !qualifies(
            self.sessions()[k].capabilities,
            *task,
        ) by {
            let j = choose|j: int| 0 <= j < self.clients.len() && self.clients[j].id@ == k;
            assert(self.registry@[self.clients[j].id@] == self.clients[j].record());
        }
        None
    }
}

} // verus!
