use vstd::prelude::*;

verus! {

/// Custom metadata attached to each minted token. The collection deployed by
/// this controller takes no on-chain metadata, so the extension carries no
/// fields; whether a value is present is still forwarded with every mint.
#[derive(Debug, Clone, Copy, PartialEq, Eq, Structural)]
pub struct TokenExtension {}

/// The single persistent record of the contract: immutable parameters fixed
/// at setup, the optional collection address set once by the deployment
/// callback, and the counter of the next token id to mint.
#[derive(Debug)]
pub struct Config {
    pub owner: String,
    pub cw20_address: String,
    pub cw721_address: Option<String>,
    pub unit_price: u128,
    pub max_tokens: u32,
    pub name: String,
    pub symbol: String,
    pub token_uri: String,
    pub extension: Option<TokenExtension>,
    pub unused_token_id: u32,
}

/// Mathematical model of a configuration record.
pub ghost struct ConfigV {
    pub owner: Seq<char>,
    pub cw20_address: Seq<char>,
    pub cw721_address: Option<Seq<char>>,
    pub unit_price: int,
    pub max_tokens: int,
    pub name: Seq<char>,
    pub symbol: Seq<char>,
    pub token_uri: Seq<char>,
    pub extension: Option<TokenExtension>,
    pub unused_token_id: int,
}

impl ConfigV {
    /// Invariant of every record the contract ever persists: positive price,
    /// positive cap, and a counter that never passes the cap.
    pub open spec fn wf(self) -> bool {
        &&& self.unit_price > 0
        &&& self.max_tokens > 0
        &&& 0 <= self.unused_token_id <= self.max_tokens
    }
}

impl View for Config {
    type V = ConfigV;

    open spec fn view(&self) -> ConfigV {
        ConfigV {
            owner: self.owner@,
            cw20_address: self.cw20_address@,
            cw721_address: match self.cw721_address {
                Some(a) => Some(a@),
                None => None,
            },
            unit_price: self.unit_price as int,
            max_tokens: self.max_tokens as int,
            name: self.name@,
            symbol: self.symbol@,
            token_uri: self.token_uri@,
            extension: self.extension,
            unused_token_id: self.unused_token_id as int,
        }
    }
}

/// Single-row table holding the one Configuration record of the contract
/// instance: empty before setup, then exactly one record. Every entry point
/// takes the store as an explicit dependency.
#[derive(Debug)]
pub struct ConfigStore {
    pub record: Option<Config>,
}

impl View for ConfigStore {
    type V = Option<ConfigV>;

    open spec fn view(&self) -> Option<ConfigV> {
        match self.record {
            Some(c) => Some(c@),
            None => None,
        }
    }
}

impl ConfigStore {
    /// An uninitialized instance: no record yet.
    pub fn new() -> (s: Self)
        ensures
            s@ is None,
    {
        ConfigStore { record: None }
    }

    /// Whether setup has persisted a record; callers of `load` must know it has.
    pub fn is_initialized(&self) -> (r: bool)
        ensures
            r == (self@ is Some),
    {
        self.record.is_some()
    }

    /// Reads the one record. An uninitialized instance is a fatal
    /// precondition violation, so the record must exist.
    pub fn load(&self) -> (c: &Config)
        requires
            self@ is Some,
        ensures
            c@ == self@->Some_0,
    {
        self.record.as_ref().unwrap()
    }

    /// Atomic full-record overwrite.
    pub fn save(&mut self, config: Config)
        ensures
            final(self)@ == Some(config@),
    {
        self.record = Some(config);
    }
}

} // verus!
