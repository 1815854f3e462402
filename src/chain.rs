use vstd::prelude::*;
use vstd::string::StringExecFns;

use crate::bootstrap::InitError;
use crate::decimal::{decimal, decimal_string};

verus! {

/// The EVM networks the tool knows by name, plus a fallback that carries the
/// id of any other network.
#[derive(Debug, PartialEq, Eq, Structural, Clone, Copy)]
pub enum EVMChainType {
    Mainnet,
    Base,
    BSC,
    Arbitrum,
    Polygon,
    Metis,
    Optimism,
    Avalanche,
    Linea,
    Scroll,
    Fantom,
    Unknown(u64),
}

/// The known networks, in the order in which they are listed to users.
pub open spec fn supported_seq() -> Seq<EVMChainType> {
    seq![
        EVMChainType::Mainnet,
        EVMChainType::Base,
        EVMChainType::BSC,
        EVMChainType::Arbitrum,
        EVMChainType::Polygon,
        EVMChainType::Metis,
        EVMChainType::Optimism,
        EVMChainType::Avalanche,
        EVMChainType::Linea,
        EVMChainType::Scroll,
        EVMChainType::Fantom,
    ]
}

/// One line of the supported-chains listing: `- <name> (<id>)`.
pub open spec fn chain_line(c: EVMChainType) -> Seq<char> {
    "- "@ + c.spec_name() + " ("@ + decimal(c.spec_chain_id() as nat) + ")"@
}

/// The listing lines of `chains`, joined by newlines.
pub open spec fn chain_lines(chains: Seq<EVMChainType>) -> Seq<char>
    decreases chains.len(),
{
    if chains.len() == 0 {
        Seq::empty()
    } else if chains.len() == 1 {
        chain_line(chains[0])
    } else {
        chain_lines(chains.drop_last()) + "\n"@ + chain_line(chains.last())
    }
}

pub open spec fn supported_chains_text_spec() -> Seq<char> {
    "Currently supported EVM chains:\n"@ + chain_lines(supported_seq())
        + "\nVisit https://github.com/pawurb/mevlog-rs/issues/9 to add more."@
}

/// The notice shown when a node reports a chain id that is not in the table.
pub open spec fn unknown_chain_warning_spec(chain_id: u64) -> Seq<char> {
    "Unknown chain id "@ + decimal(chain_id as nat) + ". "@ + supported_chains_text_spec()
}

impl EVMChainType {
    pub open spec fn spec_chain_id(self) -> u64 {
        match self {
            EVMChainType::Mainnet => 1,
            EVMChainType::Base => 8453,
            EVMChainType::BSC => 56,
            EVMChainType::Arbitrum => 42161,
            EVMChainType::Polygon => 137,
            EVMChainType::Metis => 1088,
            EVMChainType::Optimism => 10,
            EVMChainType::Avalanche => 43114,
            EVMChainType::Linea => 59144,
            EVMChainType::Scroll => 534352,
            EVMChainType::Fantom => 250,
            EVMChainType::Unknown(chain_id) => chain_id,
        }
    }

    pub open spec fn spec_name(self) -> Seq<char> {
        match self {
            EVMChainType::Mainnet => "mainnet"@,
            EVMChainType::Base => "base"@,
            EVMChainType::BSC => "bsc"@,
            EVMChainType::Arbitrum => "arbitrum"@,
            EVMChainType::Polygon => "polygon"@,
            EVMChainType::Metis => "metis"@,
            EVMChainType::Optimism => "optimism"@,
            EVMChainType::Avalanche => "avalanche"@,
            EVMChainType::Linea => "linea"@,
            EVMChainType::Scroll => "scroll"@,
            EVMChainType::Fantom => "fantom"@,
            EVMChainType::Unknown(_) => "unknown"@,
        }
    }

    /// The identity that a numeric chain id stands for: the known network
    /// with that id, else `Unknown(id)`.
    pub open spec fn spec_lookup(chain_id: u64) -> EVMChainType {
        if chain_id == 1 {
            EVMChainType::Mainnet
        } else if chain_id == 8453 {
            EVMChainType::Base
        } else if chain_id == 56 {
            EVMChainType::BSC
        } else if chain_id == 42161 {
            EVMChainType::Arbitrum
        } else if chain_id == 137 {
            EVMChainType::Polygon
        } else if chain_id == 1088 {
            EVMChainType::Metis
        } else if chain_id == 10 {
            EVMChainType::Optimism
        } else if chain_id == 43114 {
            EVMChainType::Avalanche
        } else if chain_id == 59144 {
            EVMChainType::Linea
        } else if chain_id == 534352 {
            EVMChainType::Scroll
        } else if chain_id == 250 {
            EVMChainType::Fantom
        } else {
            EVMChainType::Unknown(chain_id)
        }
    }

    pub open spec fn is_known(self) -> bool {
        !(self is Unknown)
    }

    pub fn chain_id(&self) -> (r: u64)
        ensures
            r == self.spec_chain_id(),
    {
        match self {
            EVMChainType::Mainnet => 1,
            EVMChainType::Base => 8453,
            EVMChainType::BSC => 56,
            EVMChainType::Arbitrum => 42161,
            EVMChainType::Polygon => 137,
            EVMChainType::Metis => 1088,
            EVMChainType::Optimism => 10,
            EVMChainType::Avalanche => 43114,
            EVMChainType::Linea => 59144,
            EVMChainType::Scroll => 534352,
            EVMChainType::Fantom => 250,
            EVMChainType::Unknown(chain_id) => *chain_id,
        }
    }

    pub fn name(&self) -> (r: &str)
        ensures
            r@ == self.spec_name(),
    {
        match self {
            EVMChainType::Mainnet => "mainnet",
            EVMChainType::Base => "base",
            EVMChainType::BSC => "bsc",
            EVMChainType::Arbitrum => "arbitrum",
            EVMChainType::Polygon => "polygon",
            EVMChainType::Metis => "metis",
            EVMChainType::Optimism => "optimism",
            EVMChainType::Avalanche => "avalanche",
            EVMChainType::Linea => "linea",
            EVMChainType::Scroll => "scroll",
            EVMChainType::Fantom => "fantom",
            EVMChainType::Unknown(_) => "unknown",
        }
    }

    /// Every known network, each once, in listing order.
    pub fn supported() -> (r: Vec<Self>)
        ensures
            r@ == supported_seq(),
    {
        let r = vec![
            EVMChainType::Mainnet,
            EVMChainType::Base,
            EVMChainType::BSC,
            EVMChainType::Arbitrum,
            EVMChainType::Polygon,
            EVMChainType::Metis,
            EVMChainType::Optimism,
            EVMChainType::Avalanche,
            EVMChainType::Linea,
            EVMChainType::Scroll,
            EVMChainType::Fantom,
        ];
        assert(r@ =~= supported_seq());
        r
    }

    /// Lists the known networks for operators, one `- <name> (<id>)` line each.
    pub fn supported_chains_text() -> (r: String)
        ensures
            r@ == supported_chains_text_spec(),
    {
        let chains = Self::supported();
        let mut lines = String::new();
        let mut i: usize = 0;
        while i < chains.len()
            invariant
                chains@ == supported_seq(),
                i <= chains.len(),
                lines@ == chain_lines(chains@.subrange(0, i as int)),
            decreases chains.len() - i,
        {
            let c = chains[i];
            if i > 0 {
                lines.append("\n");
            }
            lines.append("- ");
            lines.append(c.name());
            lines.append(" (");
            let id = decimal_string(c.chain_id());
            lines.append(id.as_str());
            lines.append(")");
            proof {
                let next = chains@.subrange(0, i + 1);
                assert(next.drop_last() =~= chains@.subrange(0, i as int));
                assert(next.last() == c);
            }
            assert(lines@ =~= chain_lines(chains@.subrange(0, i + 1)));
            i += 1;
        }
        assert(chains@.subrange(0, chains.len() as int) =~= chains@);
        let mut text = String::from_str("Currently supported EVM chains:\n");
        text.append(lines.as_str());
        text.append("\nVisit https://github.com/pawurb/mevlog-rs/issues/9 to add more.");
        text
    }

    /// Resolves a chain id by searching the table of known networks.
    pub fn lookup(chain_id: u64) -> (r: Self)
        ensures
            r == Self::spec_lookup(chain_id),
    {
        let chains = Self::supported();
        let mut i: usize = 0;
        while i < chains.len()
            invariant
                chains@ == supported_seq(),
                i <= chains.len(),
                forall|j: int| 0 <= j < i ==> (#[trigger] chains@[j]).spec_chain_id() != chain_id,
            decreases chains.len() - i,
        {
            let c = chains[i];
            if c.chain_id() == chain_id {
                return c;
            }
            i += 1;
        }
        assert(chains@[0].spec_chain_id() != chain_id);
        assert(chains@[1].spec_chain_id() != chain_id);
        assert(chains@[2].spec_chain_id() != chain_id);
        assert(chains@[3].spec_chain_id() != chain_id);
        assert(chains@[4].spec_chain_id() != chain_id);
        assert(chains@[5].spec_chain_id() != chain_id);
        assert(chains@[6].spec_chain_id() != chain_id);
        assert(chains@[7].spec_chain_id() != chain_id);
        assert(chains@[8].spec_chain_id() != chain_id);
        assert(chains@[9].spec_chain_id() != chain_id);
        assert(chains@[10].spec_chain_id() != chain_id);
        EVMChainType::Unknown(chain_id)
    }
}

/// The all-zero address: no price oracle is known.
pub open spec fn zero_address() -> Seq<u8> {
    Seq::new(20, |i: int| 0u8)
}

/// A network as the rest of the tool sees it: its identity and the endpoint
/// it is reached through.
#[derive(Debug, Clone)]
pub struct EVMChain {
    pub chain_type: EVMChainType,
    pub rpc_url: String,
}

impl EVMChainType {
    /// Gas token / USD price feed contract of each network (Chainlink).
    pub open spec fn spec_price_oracle(self) -> Seq<u8> {
        match self {
            EVMChainType::Mainnet => seq![
                0x5f, 0x4e, 0xc3, 0xdf, 0x9c, 0xbd, 0x43, 0x71, 0x4f, 0xe2, 0x74, 0x0f, 0x5e, 0x36, 0x16, 0x15, 0x5c, 0x5b, 0x84, 0x19,
            ],
            EVMChainType::Base => seq![
                0x71, 0x04, 0x1d, 0xdd, 0xad, 0x35, 0x95, 0xf9, 0xce, 0xd3, 0xdc, 0xcf, 0xbe, 0x3d, 0x1f, 0x4b, 0x0a, 0x16, 0xbb, 0x70,
            ],
            EVMChainType::BSC => seq![
                0x05, 0x67, 0xf2, 0x32, 0x32, 0x51, 0xf0, 0xaa, 0xb1, 0x5c, 0x8d, 0xfb, 0x19, 0x67, 0xe4, 0xe8, 0xa7, 0xd4, 0x2a, 0xee,
            ],
            EVMChainType::Arbitrum => seq![
                0x63, 0x9f, 0xe6, 0xab, 0x55, 0xc9, 0x21, 0xf7, 0x4e, 0x7f, 0xac, 0x1e, 0xe9, 0x60, 0xc0, 0xb6, 0x29, 0x3b, 0xa6, 0x12,
            ],
            EVMChainType::Polygon => seq![
                0xab, 0x59, 0x46, 0x00, 0x37, 0x6e, 0xc9, 0xfd, 0x91, 0xf8, 0xe8, 0x85, 0xda, 0xdf, 0x0c, 0xe0, 0x36, 0x86, 0x2d, 0xe0,
            ],
            EVMChainType::Metis => seq![
                0xd4, 0xa5, 0xbb, 0x03, 0xb5, 0xd6, 0x6d, 0x9b, 0xf8, 0x15, 0x07, 0x37, 0x93, 0x02, 0xac, 0x2c, 0x2d, 0xfd, 0xfa, 0x6d,
            ],
            EVMChainType::Optimism => seq![
                0x13, 0xe3, 0xee, 0x69, 0x9d, 0x19, 0x09, 0xe9, 0x89, 0x72, 0x2e, 0x75, 0x38, 0x53, 0xae, 0x30, 0xb1, 0x7e, 0x08, 0xc5,
            ],
            EVMChainType::Avalanche => seq![
                0x0a, 0x77, 0x23, 0x0d, 0x17, 0x31, 0x80, 0x75, 0x98, 0x39, 0x13, 0xbc, 0x21, 0x45, 0xdb, 0x16, 0xc7, 0x36, 0x61, 0x56,
            ],
            EVMChainType::Linea => seq![
                0x3c, 0x6c, 0xd9, 0xcc, 0x7c, 0x7a, 0x4c, 0x2c, 0xf5, 0xa8, 0x27, 0x34, 0xcd, 0x24, 0x9d, 0x7d, 0x59, 0x33, 0x54, 0xda,
            ],
            EVMChainType::Scroll => seq![
                0x6b, 0xf1, 0x4c, 0xb0, 0xa8, 0x31, 0x07, 0x86, 0x29, 0xd9, 0x93, 0xfd, 0xeb, 0xcb, 0x18, 0x2b, 0x21, 0xa8, 0x77, 0x4c,
            ],
            EVMChainType::Fantom => seq![
                0x11, 0xdd, 0xd3, 0xd1, 0x47, 0xe5, 0xb8, 0x3d, 0x01, 0xce, 0xe7, 0x07, 0x00, 0x27, 0x09, 0x23, 0x97, 0xd6, 0x36, 0x58,
            ],
            EVMChainType::Unknown(_) => zero_address(),
        }
    }

    /// Base URL of the network's block explorer; unknown networks fall back to
    /// the mainnet explorer.
    pub open spec fn spec_explorer_url(self) -> Seq<char> {
        match self {
            EVMChainType::Mainnet => "https://etherscan.io"@,
            EVMChainType::Base => "https://basescan.org"@,
            EVMChainType::BSC => "https://bscscan.com"@,
            EVMChainType::Arbitrum => "https://arbiscan.io"@,
            EVMChainType::Polygon => "https://polygonscan.com"@,
            EVMChainType::Metis => "https://andromeda-explorer.metis.io"@,
            EVMChainType::Optimism => "https://optimistic.etherscan.io"@,
            EVMChainType::Avalanche => "https://snowtrace.io"@,
            EVMChainType::Linea => "https://lineascan.build"@,
            EVMChainType::Scroll => "https://scrollscan.com"@,
            EVMChainType::Fantom => "https://explorer.fantom.network"@,
            EVMChainType::Unknown(_) => "https://etherscan.io"@,
        }
    }

    /// Symbol of the native currency.
    pub open spec fn spec_currency_symbol(self) -> Seq<char> {
        match self {
            EVMChainType::BSC => "BNB"@,
            EVMChainType::Polygon => "POL"@,
            EVMChainType::Avalanche => "AVAX"@,
            EVMChainType::Metis => "METIS"@,
            EVMChainType::Fantom => "FTM"@,
            _ => "ETH"@,
        }
    }

    /// Name of the per-network directory in the on-disk cache layout.
    pub open spec fn spec_cache_dir_name(self) -> Seq<char> {
        match self {
            EVMChainType::Mainnet => "ethereum"@,
            EVMChainType::BSC => "bnb"@,
            EVMChainType::Scroll | EVMChainType::Fantom | EVMChainType::Unknown(_) => "network_"@
                + decimal(self.spec_chain_id() as nat),
            _ => decimal(self.spec_chain_id() as nat),
        }
    }
}

impl EVMChain {
    /// Builds the chain for an id reported by a node. Never fails: an id that
    /// is not in the table becomes `Unknown(chain_id)`.
    pub fn new(chain_id: u64, rpc_url: String) -> (r: Result<Self, InitError>)
        ensures
            r == Ok::<Self, InitError>(
                EVMChain { chain_type: EVMChainType::spec_lookup(chain_id), rpc_url },
            ),
    {
        let chain_type = EVMChainType::lookup(chain_id);
        Ok(Self { rpc_url, chain_type })
    }

    pub fn chain_id(&self) -> (r: u64)
        ensures
            r == self.chain_type.spec_chain_id(),
    {
        self.chain_type.chain_id()
    }

    pub fn name(&self) -> (r: &str)
        ensures
            r@ == self.chain_type.spec_name(),
    {
        self.chain_type.name()
    }

    /// The revm cache keeps one directory per network, named after it.
    pub fn revm_cache_dir_name(&self) -> (r: &str)
        ensures
            r@ == self.chain_type.spec_name(),
    {
        self.name()
    }

    /// The cryo cache directory of the network.
    pub fn cryo_cache_dir_name(&self) -> (r: String)
        ensures
            r@ == self.chain_type.spec_cache_dir_name(),
    {
        match self.chain_type {
            EVMChainType::Mainnet => String::from_str("ethereum"),
            EVMChainType::BSC => String::from_str("bnb"),
            EVMChainType::Scroll | EVMChainType::Fantom | EVMChainType::Unknown(_) => {
                let prefix = String::from_str("network_");
                let id = decimal_string(self.chain_id());
                prefix.concat(id.as_str())
            },
            _ => decimal_string(self.chain_id()),
        }
    }

    /// The 20 bytes of the network's price-feed contract address, all zero
    /// where none is known.
    pub fn price_oracle(&self) -> (r: [u8; 20])
        ensures
            r@ == self.chain_type.spec_price_oracle(),
    {
        match self.chain_type {
            EVMChainType::Mainnet => [
                0x5f, 0x4e, 0xc3, 0xdf, 0x9c, 0xbd, 0x43, 0x71, 0x4f, 0xe2, 0x74, 0x0f, 0x5e, 0x36, 0x16, 0x15, 0x5c, 0x5b, 0x84, 0x19,
            ],
            EVMChainType::Base => [
                0x71, 0x04, 0x1d, 0xdd, 0xad, 0x35, 0x95, 0xf9, 0xce, 0xd3, 0xdc, 0xcf, 0xbe, 0x3d, 0x1f, 0x4b, 0x0a, 0x16, 0xbb, 0x70,
            ],
            EVMChainType::BSC => [
                0x05, 0x67, 0xf2, 0x32, 0x32, 0x51, 0xf0, 0xaa, 0xb1, 0x5c, 0x8d, 0xfb, 0x19, 0x67, 0xe4, 0xe8, 0xa7, 0xd4, 0x2a, 0xee,
            ],
            EVMChainType::Arbitrum => [
                0x63, 0x9f, 0xe6, 0xab, 0x55, 0xc9, 0x21, 0xf7, 0x4e, 0x7f, 0xac, 0x1e, 0xe9, 0x60, 0xc0, 0xb6, 0x29, 0x3b, 0xa6, 0x12,
            ],
            EVMChainType::Polygon => [
                0xab, 0x59, 0x46, 0x00, 0x37, 0x6e, 0xc9, 0xfd, 0x91, 0xf8, 0xe8, 0x85, 0xda, 0xdf, 0x0c, 0xe0, 0x36, 0x86, 0x2d, 0xe0,
            ],
            EVMChainType::Metis => [
                0xd4, 0xa5, 0xbb, 0x03, 0xb5, 0xd6, 0x6d, 0x9b, 0xf8, 0x15, 0x07, 0x37, 0x93, 0x02, 0xac, 0x2c, 0x2d, 0xfd, 0xfa, 0x6d,
            ],
            EVMChainType::Optimism => [
                0x13, 0xe3, 0xee, 0x69, 0x9d, 0x19, 0x09, 0xe9, 0x89, 0x72, 0x2e, 0x75, 0x38, 0x53, 0xae, 0x30, 0xb1, 0x7e, 0x08, 0xc5,
            ],
            EVMChainType::Avalanche => [
                0x0a, 0x77, 0x23, 0x0d, 0x17, 0x31, 0x80, 0x75, 0x98, 0x39, 0x13, 0xbc, 0x21, 0x45, 0xdb, 0x16, 0xc7, 0x36, 0x61, 0x56,
            ],
            EVMChainType::Linea => [
                0x3c, 0x6c, 0xd9, 0xcc, 0x7c, 0x7a, 0x4c, 0x2c, 0xf5, 0xa8, 0x27, 0x34, 0xcd, 0x24, 0x9d, 0x7d, 0x59, 0x33, 0x54, 0xda,
            ],
            EVMChainType::Scroll => [
                0x6b, 0xf1, 0x4c, 0xb0, 0xa8, 0x31, 0x07, 0x86, 0x29, 0xd9, 0x93, 0xfd, 0xeb, 0xcb, 0x18, 0x2b, 0x21, 0xa8, 0x77, 0x4c,
            ],
            EVMChainType::Fantom => [
                0x11, 0xdd, 0xd3, 0xd1, 0x47, 0xe5, 0xb8, 0x3d, 0x01, 0xce, 0xe7, 0x07, 0x00, 0x27, 0x09, 0x23, 0x97, 0xd6, 0x36, 0x58,
            ],
            EVMChainType::Unknown(_) => [0u8; 20],
        }
    }

    pub fn etherscan_url(&self) -> (r: &str)
        ensures
            r@ == self.chain_type.spec_explorer_url(),
    {
        match self.chain_type {
            EVMChainType::Mainnet => "https://etherscan.io",
            EVMChainType::Base => "https://basescan.org",
            EVMChainType::BSC => "https://bscscan.com",
            EVMChainType::Arbitrum => "https://arbiscan.io",
            EVMChainType::Polygon => "https://polygonscan.com",
            EVMChainType::Metis => "https://andromeda-explorer.metis.io",
            EVMChainType::Optimism => "https://optimistic.etherscan.io",
            EVMChainType::Avalanche => "https://snowtrace.io",
            EVMChainType::Linea => "https://lineascan.build",
            EVMChainType::Scroll => "https://scrollscan.com",
            EVMChainType::Fantom => "https://explorer.fantom.network",
            EVMChainType::Unknown(_) => "https://etherscan.io",
        }
    }

    pub fn currency_symbol(&self) -> (r: &str)
        ensures
            r@ == self.chain_type.spec_currency_symbol(),
    {
        match self.chain_type {
            EVMChainType::BSC => "BNB",
            EVMChainType::Polygon => "POL",
            EVMChainType::Avalanche => "AVAX",
            EVMChainType::Metis => "METIS",
            EVMChainType::Fantom => "FTM",
            _ => "ETH",
        }
    }
}

/// The operator notice for a chain id: `Some` with the text exactly when the
/// id is not a known network.
pub fn unknown_chain_warning(chain_id: u64) -> (r: Option<String>)
    ensures
        EVMChainType::spec_lookup(chain_id).is_known() ==> r is None,
        !EVMChainType::spec_lookup(chain_id).is_known() ==> r is Some && r->Some_0@
            == unknown_chain_warning_spec(chain_id),
{
    let chain_type = EVMChainType::lookup(chain_id);
    match chain_type {
        EVMChainType::Unknown(_) => {
            let mut text = String::from_str("Unknown chain id ");
            let id = decimal_string(chain_id);
            text.append(id.as_str());
            text.append(". ");
            let listing = EVMChainType::supported_chains_text();
            text.append(listing.as_str());
            Some(text)
        },
        _ => None,
    }
}

/// Whether some known network has this id.
pub open spec fn is_supported_id(chain_id: u64) -> bool {
    exists|j: int| 0 <= j < supported_seq().len() && (#[trigger] supported_seq()[j]).spec_chain_id()
        == chain_id
}

/// Looking up the id of a known network gives back that network, under its
/// own id and name.
pub proof fn lookup_of_supported_id(chain_id: u64)
    requires
        is_supported_id(chain_id),
    ensures
        EVMChainType::spec_lookup(chain_id).is_known(),
        EVMChainType::spec_lookup(chain_id).spec_chain_id() == chain_id,
        supported_seq().contains(EVMChainType::spec_lookup(chain_id)),
{
    let j = choose|j: int|
        0 <= j < supported_seq().len() && (#[trigger] supported_seq()[j]).spec_chain_id()
            == chain_id;
    assert(supported_seq()[j] == EVMChainType::spec_lookup(chain_id));
}

/// Any id outside the table resolves to `Unknown(id)`, named "unknown", with
/// the zero oracle address and "ETH" as currency.
pub proof fn lookup_of_unsupported_id(chain_id: u64)
    requires
        !is_supported_id(chain_id),
    ensures
        EVMChainType::spec_lookup(chain_id) == EVMChainType::Unknown(chain_id),
        EVMChainType::spec_lookup(chain_id).spec_name() == "unknown"@,
        EVMChainType::spec_lookup(chain_id).spec_price_oracle() == zero_address(),
        EVMChainType::spec_lookup(chain_id).spec_currency_symbol() == "ETH"@,
{
    assert(supported_seq()[0].spec_chain_id() != chain_id);
    assert(supported_seq()[1].spec_chain_id() != chain_id);
    assert(supported_seq()[2].spec_chain_id() != chain_id);
    assert(supported_seq()[3].spec_chain_id() != chain_id);
    assert(supported_seq()[4].spec_chain_id() != chain_id);
    assert(supported_seq()[5].spec_chain_id() != chain_id);
    assert(supported_seq()[6].spec_chain_id() != chain_id);
    assert(supported_seq()[7].spec_chain_id() != chain_id);
    assert(supported_seq()[8].spec_chain_id() != chain_id);
    assert(supported_seq()[9].spec_chain_id() != chain_id);
    assert(supported_seq()[10].spec_chain_id() != chain_id);
}

/// Cache directory names by chain id: "ethereum" for 1, "bnb" for 56,
/// `network_<id>` for 534352, 250 and every id outside the table, and the bare
/// decimal id for the other known networks.
pub proof fn cache_dir_name_of_id(chain_id: u64)
    ensures
        EVMChainType::spec_lookup(chain_id).spec_cache_dir_name() == if chain_id == 1 {
            "ethereum"@
        } else if chain_id == 56 {
            "bnb"@
        } else if chain_id == 534352 || chain_id == 250 || !is_supported_id(chain_id) {
            "network_"@ + decimal(chain_id as nat)
        } else {
            decimal(chain_id as nat)
        },
{
    if is_supported_id(chain_id) {
        lookup_of_supported_id(chain_id);
    } else {
        lookup_of_unsupported_id(chain_id);
    }
}

} // verus!
