use mevlog::chain::{unknown_chain_warning, EVMChain, EVMChainType};
use mevlog::decimal::decimal_string;

fn chain(id: u64) -> EVMChain {
    EVMChain::new(id, "http://node.example:8545".to_string()).unwrap()
}

const KNOWN: [(u64, &str); 11] = [
    (1, "mainnet"),
    (8453, "base"),
    (56, "bsc"),
    (42161, "arbitrum"),
    (137, "polygon"),
    (1088, "metis"),
    (10, "optimism"),
    (43114, "avalanche"),
    (59144, "linea"),
    (534352, "scroll"),
    (250, "fantom"),
];

#[test]
fn known_ids_round_trip_with_fixed_names() {
    for (id, name) in KNOWN {
        let t = EVMChainType::lookup(id);
        assert!(!matches!(t, EVMChainType::Unknown(_)));
        assert_eq!(t.chain_id(), id);
        assert_eq!(t.name(), name);
        let c = chain(id);
        assert_eq!(c.chain_id(), id);
        assert_eq!(c.name(), name);
        assert_eq!(c.revm_cache_dir_name(), name);
    }
}

#[test]
fn supported_lists_every_known_chain_in_order() {
    let ids: Vec<u64> = EVMChainType::supported().iter().map(|c| c.chain_id()).collect();
    let expected: Vec<u64> = KNOWN.iter().map(|k| k.0).collect();
    assert_eq!(ids, expected);
}

#[test]
fn unknown_ids_degrade_to_defaults() {
    for id in [0u64, 2, 5, 11155111, u64::MAX] {
        let c = chain(id);
        assert_eq!(c.chain_type, EVMChainType::Unknown(id));
        assert_eq!(c.chain_id(), id);
        assert_eq!(c.name(), "unknown");
        assert_eq!(c.price_oracle(), [0u8; 20]);
        assert_eq!(c.currency_symbol(), "ETH");
        assert_eq!(c.etherscan_url(), "https://etherscan.io");
    }
}

#[test]
fn cache_dir_names_follow_the_table() {
    assert_eq!(chain(1).cryo_cache_dir_name(), "ethereum");
    assert_eq!(chain(56).cryo_cache_dir_name(), "bnb");
    assert_eq!(chain(534352).cryo_cache_dir_name(), "network_534352");
    assert_eq!(chain(250).cryo_cache_dir_name(), "network_250");
    assert_eq!(chain(8453).cryo_cache_dir_name(), "8453");
    assert_eq!(chain(42161).cryo_cache_dir_name(), "42161");
    assert_eq!(chain(137).cryo_cache_dir_name(), "137");
    assert_eq!(chain(1088).cryo_cache_dir_name(), "1088");
    assert_eq!(chain(10).cryo_cache_dir_name(), "10");
    assert_eq!(chain(43114).cryo_cache_dir_name(), "43114");
    assert_eq!(chain(59144).cryo_cache_dir_name(), "59144");
    assert_eq!(chain(7).cryo_cache_dir_name(), "network_7");
}

#[test]
fn unrecognized_chain_999999() {
    let c = chain(999999);
    assert_eq!(c.chain_type, EVMChainType::Unknown(999999));
    assert_eq!(c.cryo_cache_dir_name(), "network_999999");
    let warning = unknown_chain_warning(999999).unwrap();
    assert!(warning.starts_with("Unknown chain id 999999. Currently supported EVM chains:\n"));
}

#[test]
fn no_warning_for_known_ids() {
    for (id, _) in KNOWN {
        assert_eq!(unknown_chain_warning(id), None);
    }
}

#[test]
fn currency_symbols() {
    assert_eq!(chain(56).currency_symbol(), "BNB");
    assert_eq!(chain(137).currency_symbol(), "POL");
    assert_eq!(chain(43114).currency_symbol(), "AVAX");
    assert_eq!(chain(1088).currency_symbol(), "METIS");
    assert_eq!(chain(250).currency_symbol(), "FTM");
    for id in [1u64, 8453, 42161, 10, 59144, 534352] {
        assert_eq!(chain(id).currency_symbol(), "ETH");
    }
}

#[test]
fn explorer_urls() {
    assert_eq!(chain(1).etherscan_url(), "https://etherscan.io");
    assert_eq!(chain(8453).etherscan_url(), "https://basescan.org");
    assert_eq!(chain(56).etherscan_url(), "https://bscscan.com");
    assert_eq!(chain(42161).etherscan_url(), "https://arbiscan.io");
    assert_eq!(chain(137).etherscan_url(), "https://polygonscan.com");
    assert_eq!(chain(1088).etherscan_url(), "https://andromeda-explorer.metis.io");
    assert_eq!(chain(10).etherscan_url(), "https://optimistic.etherscan.io");
    assert_eq!(chain(43114).etherscan_url(), "https://snowtrace.io");
    assert_eq!(chain(59144).etherscan_url(), "https://lineascan.build");
    assert_eq!(chain(534352).etherscan_url(), "https://scrollscan.com");
    assert_eq!(chain(250).etherscan_url(), "https://explorer.fantom.network");
}

fn hex(bytes: [u8; 20]) -> String {
    bytes.iter().map(|b| format!("{:02x}", b)).collect()
}

#[test]
fn price_oracle_addresses() {
    assert_eq!(hex(chain(1).price_oracle()), "5f4ec3df9cbd43714fe2740f5e3616155c5b8419");
    assert_eq!(hex(chain(8453).price_oracle()), "71041dddad3595f9ced3dccfbe3d1f4b0a16bb70");
    assert_eq!(hex(chain(56).price_oracle()), "0567f2323251f0aab15c8dfb1967e4e8a7d42aee");
    assert_eq!(hex(chain(42161).price_oracle()), "639fe6ab55c921f74e7fac1ee960c0b6293ba612");
    assert_eq!(hex(chain(137).price_oracle()), "ab594600376ec9fd91f8e885dadf0ce036862de0");
    assert_eq!(hex(chain(1088).price_oracle()), "d4a5bb03b5d66d9bf81507379302ac2c2dfdfa6d");
    assert_eq!(hex(chain(10).price_oracle()), "13e3ee699d1909e989722e753853ae30b17e08c5");
    assert_eq!(hex(chain(43114).price_oracle()), "0a77230d17318075983913bc2145db16c7366156");
    assert_eq!(hex(chain(59144).price_oracle()), "3c6cd9cc7c7a4c2cf5a82734cd249d7d593354da");
    assert_eq!(hex(chain(534352).price_oracle()), "6bf14cb0a831078629d993fdebcb182b21a8774c");
    assert_eq!(hex(chain(250).price_oracle()), "11ddd3d147e5b83d01cee7070027092397d63658");
}

#[test]
fn supported_chains_text_lists_all() {
    let text = EVMChainType::supported_chains_text();
    let expected = "Currently supported EVM chains:\n\
- mainnet (1)\n\
- base (8453)\n\
- bsc (56)\n\
- arbitrum (42161)\n\
- polygon (137)\n\
- metis (1088)\n\
- optimism (10)\n\
- avalanche (43114)\n\
- linea (59144)\n\
- scroll (534352)\n\
- fantom (250)\n\
Visit https://github.com/pawurb/mevlog-rs/issues/9 to add more.";
    assert_eq!(text, expected);
    let warning = unknown_chain_warning(42).unwrap();
    assert_eq!(warning, format!("Unknown chain id 42. {}", expected));
}

#[test]
fn decimal_matches_to_string() {
    for n in [0u64, 7, 9, 10, 99, 100, 534352, 1_000_000_007, u64::MAX] {
        assert_eq!(decimal_string(n), n.to_string());
    }
}

#[test]
fn new_keeps_rpc_url() {
    let c = EVMChain::new(137, "http://x".to_string()).unwrap();
    assert_eq!(c.rpc_url, "http://x");
    assert_eq!(c.chain_type, EVMChainType::Polygon);
}
