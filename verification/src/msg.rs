use vstd::prelude::*;

use crate::state::{ConfigV, TokenExtension};

verus! {

/// The setup request: all immutable parameters of the sale and the code
/// reference of the collection contract to deploy.
#[derive(Debug)]
pub struct InstantiateMsg {
    pub max_tokens: u32,
    pub unit_price: u128,
    pub name: String,
    pub symbol: String,
    pub token_code_id: u64,
    pub cw20_address: String,
    pub token_uri: String,
    pub extension: Option<TokenExtension>,
}

/// A payment notification forwarded by the fungible-token contract.
#[derive(Debug)]
pub struct Cw20ReceiveMsg {
    pub sender: String,
    pub amount: u128,
    pub msg: Vec<u8>,
}

/// The mutating operations the dispatcher routes.
#[derive(Debug)]
pub enum ExecuteMsg {
    Receive(Cw20ReceiveMsg),
}

/// The read-only operations the dispatcher routes.
#[derive(Debug)]
pub enum QueryMsg {
    GetConfig {},
}

/// Read-only projection of every Configuration field.
#[derive(Debug)]
pub struct ConfigResponse {
    pub owner: String,
    pub cw20_address: String,
    pub cw721_address: Option<String>,
    pub unit_price: u128,
    pub max_tokens: u32,
    pub name: String,
    pub symbol: String,
    pub token_uri: String,
    pub extension: Option<TokenExtension>,
    pub unused_token_id: u32,
}

impl View for ConfigResponse {
    type V = ConfigV;

    open spec fn view(&self) -> ConfigV {
        ConfigV {
            owner: self.owner@,
            cw20_address: self.cw20_address@,
            cw721_address: match self.cw721_address {
                Some(a) => Some(a@),
                None => None,
            },
            unit_price: self.unit_price as int,
            max_tokens: self.max_tokens as int,
            name: self.name@,
            symbol: self.symbol@,
            token_uri: self.token_uri@,
            extension: self.extension,
            unused_token_id: self.unused_token_id as int,
        }
    }
}

/// The one asynchronous deployment request a successful setup emits: deploy
/// the collection contract and report back under the correlation tag. The
/// minting authority is fixed here, once, to this controller.
#[derive(Debug)]
pub struct DeployRequest {
    pub code_id: u64,
    pub reply_id: u64,
    pub minter: String,
    pub name: String,
    pub symbol: String,
    pub init_payload: Vec<u8>,
}

/// The one outbound mint instruction a successful purchase emits to the
/// linked collection contract.
#[derive(Debug)]
pub struct MintInstruction {
    pub collection: String,
    pub token_id: String,
    pub owner: String,
    pub token_uri: String,
    pub extension: Option<TokenExtension>,
    pub payload: Vec<u8>,
}

} // verus!
