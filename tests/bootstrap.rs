use mevlog::bootstrap::{
    Bootstrap, BootstrapAction, BootstrapEvent, BootstrapStage, ConnOpts, InitError, TraceMode,
    MAX_RETRY,
};
use mevlog::chain::EVMChainType;

fn opts(url: Option<&str>) -> ConnOpts {
    ConnOpts { rpc_url: url.map(|u| u.to_string()), trace: None }
}

fn started() -> Bootstrap {
    let (b, action) = Bootstrap::begin(&opts(Some("http://node.example:8545")));
    assert!(matches!(action, BootstrapAction::CheckCacheFile));
    b
}

fn abort_of(action: BootstrapAction) -> InitError {
    match action {
        BootstrapAction::Abort(e) => e,
        other => panic!("expected an abort, got {:?}", other),
    }
}

#[test]
fn trace_mode_parses_exact_words() {
    assert_eq!(TraceMode::parse("revm"), Ok(TraceMode::Revm));
    assert_eq!(TraceMode::parse("rpc"), Ok(TraceMode::RPC));
    assert_eq!(TraceMode::parse("Revm"), Err(InitError::InvalidTraceMode));
    assert_eq!(TraceMode::parse("RPC"), Err(InitError::InvalidTraceMode));
    assert_eq!(TraceMode::parse(""), Err(InitError::InvalidTraceMode));
    assert_eq!(TraceMode::parse("revm "), Err(InitError::InvalidTraceMode));
    assert_eq!("rpc".parse::<TraceMode>(), Ok(TraceMode::RPC));
    assert_eq!("x".parse::<TraceMode>(), Err(InitError::InvalidTraceMode));
}

#[test]
fn missing_url_aborts_before_any_step() {
    let (mut b, action) = Bootstrap::begin(&opts(None));
    assert_eq!(abort_of(action), InitError::MissingRpcUrl);
    assert_eq!(b.stage, BootstrapStage::Failed);
    for event in [
        BootstrapEvent::CacheChecked { present: true },
        BootstrapEvent::Downloaded { ok: true },
        BootstrapEvent::WorkersSpawned,
        BootstrapEvent::ChainIdReceived { chain_id: Some(1) },
    ] {
        assert_eq!(abort_of(b.step(event)), InitError::OutOfOrder);
        assert_eq!(b.stage, BootstrapStage::Failed);
    }
}

#[test]
fn polygon_bootstrap_succeeds() {
    let mut b = started();
    assert!(matches!(
        b.step(BootstrapEvent::CacheChecked { present: true }),
        BootstrapAction::OpenDatabase
    ));
    assert!(matches!(
        b.step(BootstrapEvent::DatabaseOpened { ok: true }),
        BootstrapAction::SpawnWorkers
    ));
    assert!(matches!(b.step(BootstrapEvent::WorkersSpawned), BootstrapAction::BuildTransport));
    assert!(matches!(
        b.step(BootstrapEvent::TransportBuilt { ok: true }),
        BootstrapAction::QueryChainId
    ));
    match b.step(BootstrapEvent::ChainIdReceived { chain_id: Some(137) }) {
        BootstrapAction::Finish(chain) => {
            assert_eq!(chain.name(), "polygon");
            assert_eq!(chain.currency_symbol(), "POL");
            assert_eq!(chain.rpc_url, "http://node.example:8545");
        },
        other => panic!("expected finish, got {:?}", other),
    }
    assert_eq!(b.stage, BootstrapStage::Ready);
}

#[test]
fn unknown_chain_does_not_abort_bootstrap() {
    let mut b = started();
    b.step(BootstrapEvent::CacheChecked { present: true });
    b.step(BootstrapEvent::DatabaseOpened { ok: true });
    b.step(BootstrapEvent::WorkersSpawned);
    b.step(BootstrapEvent::TransportBuilt { ok: true });
    match b.step(BootstrapEvent::ChainIdReceived { chain_id: Some(999999) }) {
        BootstrapAction::Finish(chain) => {
            assert_eq!(chain.chain_type, EVMChainType::Unknown(999999));
            assert_eq!(chain.cryo_cache_dir_name(), "network_999999");
        },
        other => panic!("expected finish, got {:?}", other),
    }
}

#[test]
fn missing_cache_file_is_downloaded_first() {
    let mut b = started();
    assert!(matches!(
        b.step(BootstrapEvent::CacheChecked { present: false }),
        BootstrapAction::CreateDirAndDownload
    ));
    assert!(matches!(
        b.step(BootstrapEvent::Downloaded { ok: true }),
        BootstrapAction::OpenDatabase
    ));
    assert_eq!(b.stage, BootstrapStage::OpeningDatabase);
}

#[test]
fn each_failure_aborts_with_its_error() {
    let mut b = started();
    b.step(BootstrapEvent::CacheChecked { present: false });
    assert_eq!(abort_of(b.step(BootstrapEvent::Downloaded { ok: false })), InitError::CacheDownload);

    let mut b = started();
    b.step(BootstrapEvent::CacheChecked { present: true });
    assert_eq!(abort_of(b.step(BootstrapEvent::DatabaseOpened { ok: false })), InitError::Database);

    let mut b = started();
    b.step(BootstrapEvent::CacheChecked { present: true });
    b.step(BootstrapEvent::DatabaseOpened { ok: true });
    b.step(BootstrapEvent::WorkersSpawned);
    assert_eq!(
        abort_of(b.step(BootstrapEvent::TransportBuilt { ok: false })),
        InitError::InvalidRpcUrl
    );

    let mut b = started();
    b.step(BootstrapEvent::CacheChecked { present: true });
    b.step(BootstrapEvent::DatabaseOpened { ok: true });
    b.step(BootstrapEvent::WorkersSpawned);
    b.step(BootstrapEvent::TransportBuilt { ok: true });
    assert_eq!(
        abort_of(b.step(BootstrapEvent::ChainIdReceived { chain_id: None })),
        InitError::ChainId
    );
    assert_eq!(b.stage, BootstrapStage::Failed);
}

#[test]
fn out_of_order_event_aborts() {
    let mut b = started();
    assert_eq!(abort_of(b.step(BootstrapEvent::WorkersSpawned)), InitError::OutOfOrder);
    assert_eq!(b.stage, BootstrapStage::Failed);
}

#[test]
fn transport_retry_budget() {
    assert_eq!(MAX_RETRY, 10);
}
