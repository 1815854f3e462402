use vstd::prelude::*;

use crate::chain::{EVMChain, EVMChainType};

verus! {

/// Attempts the RPC transport makes before a request fails for good.
pub const MAX_RETRY: u32 = 10;

/// Initial backoff between transport retries, in milliseconds.
pub const BACKOFF_MS: u64 = 1000;

/// Request budget of the transport, in compute units per second, shared by
/// every caller of one client.
pub const COMPUTE_UNITS_PER_SECOND: u64 = 100;

/// Directory under the user's home that holds the cache database and the
/// per-chain cache directories.
pub const CONFIG_DIR_NAME: &'static str = ".mevlog";

/// Why startup stopped.
#[derive(Debug, PartialEq, Eq, Structural, Clone, Copy)]
pub enum InitError {
    /// No RPC endpoint was given.
    MissingRpcUrl,
    /// The trace mode is neither `revm` nor `rpc`.
    InvalidTraceMode,
    /// The RPC endpoint is not a valid URL.
    InvalidRpcUrl,
    /// The cache database was missing and could not be downloaded.
    CacheDownload,
    /// The cache database could not be opened.
    Database,
    /// The node did not report its chain id.
    ChainId,
    /// An event arrived that the current stage does not wait for.
    OutOfOrder,
}

impl InitError {
    pub open spec fn spec_message(self) -> Seq<char> {
        match self {
            InitError::MissingRpcUrl => "Missing provider URL, use --rpc-url or set ETH_RPC_URL env var"@,
            InitError::InvalidTraceMode => "Invalid tracing mode"@,
            InitError::InvalidRpcUrl => "Invalid provider URL"@,
            InitError::CacheDownload => "Failed to download the database file"@,
            InitError::Database => "Failed to open the database"@,
            InitError::ChainId => "Failed to get the chain id from the provider"@,
            InitError::OutOfOrder => "Startup steps reported out of order"@,
        }
    }

    /// The text shown to the user for this error.
    pub fn message(&self) -> (r: &'static str)
        ensures
            r@ == self.spec_message(),
    {
        match self {
            InitError::MissingRpcUrl => "Missing provider URL, use --rpc-url or set ETH_RPC_URL env var",
            InitError::InvalidTraceMode => "Invalid tracing mode",
            InitError::InvalidRpcUrl => "Invalid provider URL",
            InitError::CacheDownload => "Failed to download the database file",
            InitError::Database => "Failed to open the database",
            InitError::ChainId => "Failed to get the chain id from the provider",
            InitError::OutOfOrder => "Startup steps reported out of order",
        }
    }
}

/// How transactions are traced: locally with revm, or through the node.
#[derive(Debug, PartialEq, Eq, Structural, Clone, Copy)]
pub enum TraceMode {
    Revm,
    RPC,
}

fn str_equals(a: &str, b: &str) -> (r: bool)
    ensures
        r == (a@ == b@),
{
    let n = a.unicode_len();
    if n != b.unicode_len() {
        return false;
    }
    let mut i: usize = 0;
    while i < n
        invariant
            n == a@.len(),
            n == b@.len(),
            i <= n,
            forall|j: int| 0 <= j < i ==> a@[j] == b@[j],
        decreases n - i,
    {
        if a.get_char(i) != b.get_char(i) {
            return false;
        }
        i += 1;
    }
    assert(a@ =~= b@);
    true
}

impl TraceMode {
    /// Reads a trace mode: exactly `revm` or `rpc`, case-sensitive.
    pub fn parse(s: &str) -> (r: Result<TraceMode, InitError>)
        ensures
            s@ == "revm"@ ==> r == Ok::<TraceMode, InitError>(TraceMode::Revm),
            s@ == "rpc"@ ==> r == Ok::<TraceMode, InitError>(TraceMode::RPC),
            s@ != "revm"@ && s@ != "rpc"@ ==> r == Err::<TraceMode, InitError>(
                InitError::InvalidTraceMode,
            ),
    {
        proof {
            reveal_strlit("revm");
            reveal_strlit("rpc");
            assert("revm"@.len() != "rpc"@.len());
        }
        if str_equals(s, "revm") {
            Ok(TraceMode::Revm)
        } else if str_equals(s, "rpc") {
            Ok(TraceMode::RPC)
        } else {
            Err(InitError::InvalidTraceMode)
        }
    }
}

impl std::str::FromStr for TraceMode {
    type Err = InitError;

    fn from_str(s: &str) -> Result<Self, InitError> {
        Self::parse(s)
    }
}

/// What the user gave to reach a node.
#[derive(Debug, Clone)]
pub struct ConnOpts {
    pub rpc_url: Option<String>,
    pub trace: Option<TraceMode>,
}

/// Where the startup sequence stands. Each stage waits for the outcome of
/// one outside step; `Ready` and `Failed` are final.
#[derive(Debug, PartialEq, Eq, Structural, Clone, Copy)]
pub enum BootstrapStage {
    CheckingCache,
    Downloading,
    OpeningDatabase,
    SpawningWorkers,
    BuildingTransport,
    QueryingChainId,
    Ready,
    Failed,
}

/// The outcome of the outside step that the driver last performed.
#[derive(Debug, PartialEq, Eq, Structural, Clone, Copy)]
pub enum BootstrapEvent {
    CacheChecked { present: bool },
    Downloaded { ok: bool },
    DatabaseOpened { ok: bool },
    WorkersSpawned,
    TransportBuilt { ok: bool },
    ChainIdReceived { chain_id: Option<u64> },
}

/// What the driver must do next.
#[derive(Debug, Clone)]
pub enum BootstrapAction {
    /// Check whether the cache database file exists.
    CheckCacheFile,
    /// Create the config directory and download the cache database.
    CreateDirAndDownload,
    /// Open the cache database connection pool.
    OpenDatabase,
    /// Start the name and symbol resolver workers.
    SpawnWorkers,
    /// Build the retrying RPC transport for the endpoint.
    BuildTransport,
    /// Ask the node for its chain id.
    QueryChainId,
    /// Startup is complete on this chain.
    Finish(EVMChain),
    /// Startup stopped; nothing more is to be done.
    Abort(InitError),
}

/// Whether an action touches the file system, the network or the workers.
pub open spec fn performs_io(a: BootstrapAction) -> bool {
    match a {
        BootstrapAction::Finish(_) | BootstrapAction::Abort(_) => false,
        _ => true,
    }
}

/// The startup sequence: cache file, database, workers, transport, chain id.
/// The driver performs each action it is handed and reports the outcome.
#[derive(Debug)]
pub struct Bootstrap {
    pub stage: BootstrapStage,
    pub rpc_url: String,
}

/// First stage and action for the given options.
pub open spec fn begin_spec(opts: ConnOpts) -> (BootstrapStage, BootstrapAction) {
    match opts.rpc_url {
        Some(_) => (BootstrapStage::CheckingCache, BootstrapAction::CheckCacheFile),
        None => (BootstrapStage::Failed, BootstrapAction::Abort(InitError::MissingRpcUrl)),
    }
}

/// Next stage and action after `event` in `stage`, for endpoint `rpc_url`.
pub open spec fn step_spec(stage: BootstrapStage, rpc_url: String, event: BootstrapEvent) -> (
    BootstrapStage,
    BootstrapAction,
) {
    let out_of_order = (BootstrapStage::Failed, BootstrapAction::Abort(InitError::OutOfOrder));
    match stage {
        BootstrapStage::CheckingCache => match event {
            BootstrapEvent::CacheChecked { present } => if present {
                (BootstrapStage::OpeningDatabase, BootstrapAction::OpenDatabase)
            } else {
                (BootstrapStage::Downloading, BootstrapAction::CreateDirAndDownload)
            },
            _ => out_of_order,
        },
        BootstrapStage::Downloading => match event {
            BootstrapEvent::Downloaded { ok } => if ok {
                (BootstrapStage::OpeningDatabase, BootstrapAction::OpenDatabase)
            } else {
                (BootstrapStage::Failed, BootstrapAction::Abort(InitError::CacheDownload))
            },
            _ => out_of_order,
        },
        BootstrapStage::OpeningDatabase => match event {
            BootstrapEvent::DatabaseOpened { ok } => if ok {
                (BootstrapStage::SpawningWorkers, BootstrapAction::SpawnWorkers)
            } else {
                (BootstrapStage::Failed, BootstrapAction::Abort(InitError::Database))
            },
            _ => out_of_order,
        },
        BootstrapStage::SpawningWorkers => match event {
            BootstrapEvent::WorkersSpawned => (
                BootstrapStage::BuildingTransport,
                BootstrapAction::BuildTransport,
            ),
            _ => out_of_order,
        },
        BootstrapStage::BuildingTransport => match event {
            BootstrapEvent::TransportBuilt { ok } => if ok {
                (BootstrapStage::QueryingChainId, BootstrapAction::QueryChainId)
            } else {
                (BootstrapStage::Failed, BootstrapAction::Abort(InitError::InvalidRpcUrl))
            },
            _ => out_of_order,
        },
        BootstrapStage::QueryingChainId => match event {
            BootstrapEvent::ChainIdReceived { chain_id } => match chain_id {
                Some(id) => (
                    BootstrapStage::Ready,
                    BootstrapAction::Finish(
                        EVMChain { chain_type: EVMChainType::spec_lookup(id), rpc_url },
                    ),
                ),
                None => (BootstrapStage::Failed, BootstrapAction::Abort(InitError::ChainId)),
            },
            _ => out_of_order,
        },
        _ => out_of_order,
    }
}

/// The actions handed out, in order, when `events` arrive one by one from
/// `stage`.
pub open spec fn run_spec(stage: BootstrapStage, rpc_url: String, events: Seq<BootstrapEvent>) -> Seq<
    BootstrapAction,
>
    decreases events.len(),
{
    if events.len() == 0 {
        Seq::empty()
    } else {
        let (next, action) = step_spec(stage, rpc_url, events[0]);
        seq![action] + run_spec(next, rpc_url, events.drop_first())
    }
}

impl Bootstrap {
    /// Starts the sequence. Without an RPC URL it fails at once, before any
    /// outside step.
    pub fn begin(opts: &ConnOpts) -> (r: (Bootstrap, BootstrapAction))
        ensures
            (r.0.stage, r.1) == begin_spec(*opts),
            opts.rpc_url is Some ==> r.0.rpc_url == opts.rpc_url->Some_0,
    {
        match &opts.rpc_url {
            Some(url) => (
                Bootstrap { stage: BootstrapStage::CheckingCache, rpc_url: url.clone() },
                BootstrapAction::CheckCacheFile,
            ),
            None => (
                Bootstrap { stage: BootstrapStage::Failed, rpc_url: String::new() },
                BootstrapAction::Abort(InitError::MissingRpcUrl),
            ),
        }
    }

    /// Takes the outcome of the last action and hands out the next one.
    pub fn step(&mut self, event: BootstrapEvent) -> (r: BootstrapAction)
        ensures
            (final(self).stage, r) == step_spec(old(self).stage, old(self).rpc_url, event),
            final(self).rpc_url == old(self).rpc_url,
    {
        let failed = BootstrapStage::Failed;
        let (next, action) = match self.stage {
            BootstrapStage::CheckingCache => match event {
                BootstrapEvent::CacheChecked { present } => if present {
                    (BootstrapStage::OpeningDatabase, BootstrapAction::OpenDatabase)
                } else {
                    (BootstrapStage::Downloading, BootstrapAction::CreateDirAndDownload)
                },
                _ => (failed, BootstrapAction::Abort(InitError::OutOfOrder)),
            },
            BootstrapStage::Downloading => match event {
                BootstrapEvent::Downloaded { ok } => if ok {
                    (BootstrapStage::OpeningDatabase, BootstrapAction::OpenDatabase)
                } else {
                    (failed, BootstrapAction::Abort(InitError::CacheDownload))
                },
                _ => (failed, BootstrapAction::Abort(InitError::OutOfOrder)),
            },
            BootstrapStage::OpeningDatabase => match event {
                BootstrapEvent::DatabaseOpened { ok } => if ok {
                    (BootstrapStage::SpawningWorkers, BootstrapAction::SpawnWorkers)
                } else {
                    (failed, BootstrapAction::Abort(InitError::Database))
                },
                _ => (failed, BootstrapAction::Abort(InitError::OutOfOrder)),
            },
            BootstrapStage::SpawningWorkers => match event {
                BootstrapEvent::WorkersSpawned => (
                    BootstrapStage::BuildingTransport,
                    BootstrapAction::BuildTransport,
                ),
                _ => (failed, BootstrapAction::Abort(InitError::OutOfOrder)),
            },
            BootstrapStage::BuildingTransport => match event {
                BootstrapEvent::TransportBuilt { ok } => if ok {
                    (BootstrapStage::QueryingChainId, BootstrapAction::QueryChainId)
                } else {
                    (failed, BootstrapAction::Abort(InitError::InvalidRpcUrl))
                },
                _ => (failed, BootstrapAction::Abort(InitError::OutOfOrder)),
            },
            BootstrapStage::QueryingChainId => match event {
                BootstrapEvent::ChainIdReceived { chain_id } => match chain_id {
                    Some(id) => {
                        let chain_type = EVMChainType::lookup(id);
                        let rpc_url = self.rpc_url.clone();
                        (
                            BootstrapStage::Ready,
                            BootstrapAction::Finish(EVMChain { chain_type, rpc_url }),
                        )
                    },
                    None => (failed, BootstrapAction::Abort(InitError::ChainId)),
                },
                _ => (failed, BootstrapAction::Abort(InitError::OutOfOrder)),
            },
            _ => (failed, BootstrapAction::Abort(InitError::OutOfOrder)),
        };
        self.stage = next;
        action
    }
}

/// The happy path: with the cache file present and every step succeeding,
/// the actions come in the fixed order and startup finishes on the chain
/// that the reported id resolves to.
pub proof fn successful_sequence(rpc_url: String, chain_id: u64)
    ensures
        run_spec(
            BootstrapStage::CheckingCache,
            rpc_url,
            seq![
                BootstrapEvent::CacheChecked { present: true },
                BootstrapEvent::DatabaseOpened { ok: true },
                BootstrapEvent::WorkersSpawned,
                BootstrapEvent::TransportBuilt { ok: true },
                BootstrapEvent::ChainIdReceived { chain_id: Some(chain_id) },
            ],
        ) == seq![
            BootstrapAction::OpenDatabase,
            BootstrapAction::SpawnWorkers,
            BootstrapAction::BuildTransport,
            BootstrapAction::QueryChainId,
            BootstrapAction::Finish(
                EVMChain { chain_type: EVMChainType::spec_lookup(chain_id), rpc_url },
            ),
        ],
{
    let events = seq![
        BootstrapEvent::CacheChecked { present: true },
        BootstrapEvent::DatabaseOpened { ok: true },
        BootstrapEvent::WorkersSpawned,
        BootstrapEvent::TransportBuilt { ok: true },
        BootstrapEvent::ChainIdReceived { chain_id: Some(chain_id) },
    ];
    reveal_with_fuel(run_spec, 6);
    assert(events.drop_first().drop_first().drop_first().drop_first().drop_first() =~= Seq::<
        BootstrapEvent,
    >::empty());
    assert(run_spec(BootstrapStage::CheckingCache, rpc_url, events) =~= seq![
        BootstrapAction::OpenDatabase,
        BootstrapAction::SpawnWorkers,
        BootstrapAction::BuildTransport,
        BootstrapAction::QueryChainId,
        BootstrapAction::Finish(
            EVMChain { chain_type: EVMChainType::spec_lookup(chain_id), rpc_url },
        ),
    ]);
}

/// Once the sequence has failed, no event leads to another outside step.
pub proof fn failed_stays_silent(rpc_url: String, events: Seq<BootstrapEvent>)
    ensures
        run_spec(BootstrapStage::Failed, rpc_url, events).len() == events.len(),
        forall|i: int|
            0 <= i < events.len() ==> !performs_io(
                #[trigger] run_spec(BootstrapStage::Failed, rpc_url, events)[i],
            ),
    decreases events.len(),
{
    if events.len() > 0 {
        failed_stays_silent(rpc_url, events.drop_first());
        let rest = run_spec(BootstrapStage::Failed, rpc_url, events.drop_first());
        let all = run_spec(BootstrapStage::Failed, rpc_url, events);
        assert(all == seq![BootstrapAction::Abort(InitError::OutOfOrder)] + rest);
        assert forall|i: int| 0 <= i < events.len() implies !performs_io(#[trigger] all[i]) by {
            if i > 0 {
                assert(all[i] == rest[i - 1]);
            }
        }
    }
}

/// Without an RPC URL startup aborts with `MissingRpcUrl` as its first
/// action, and whatever is reported afterwards, no file, network or worker
/// step is ever asked for.
pub proof fn missing_url_fails_before_io(opts: ConnOpts, events: Seq<BootstrapEvent>)
    requires
        opts.rpc_url is None,
    ensures
        begin_spec(opts) == (BootstrapStage::Failed, BootstrapAction::Abort(InitError::MissingRpcUrl)),
        forall|rpc_url: String, i: int|
            0 <= i < events.len() ==> !performs_io(
                #[trigger] run_spec(begin_spec(opts).0, rpc_url, events)[i],
            ),
{
    assert forall|rpc_url: String, i: int|
        0 <= i < events.len() implies !performs_io(
        #[trigger] run_spec(begin_spec(opts).0, rpc_url, events)[i],
    ) by {
        failed_stays_silent(rpc_url, events);
    }
}

} // verus!
