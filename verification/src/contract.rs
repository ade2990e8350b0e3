use vstd::prelude::*;

use crate::encode::{collection_init_payload, encode_collection_init, encode_mint, mint_payload};
use crate::error::ContractError;
use crate::msg::{
    ConfigResponse, Cw20ReceiveMsg, DeployRequest, ExecuteMsg, InstantiateMsg, MintInstruction,
    QueryMsg,
};
use crate::numeral::{decimal_of, u32_to_decimal};
use crate::state::{Config, ConfigStore, ConfigV};

verus! {

/// Correlation tag of the one deployment request issued at setup; the
/// deployment callback must answer under the same tag.
pub const INSTANTIATE_TOKEN_REPLY_ID: u64 = 1;

/// The record a successful setup persists: the caller as owner, the
/// collection not yet linked, nothing minted.
pub open spec fn setup_config(owner: Seq<char>, msg: InstantiateMsg) -> ConfigV {
    ConfigV {
        owner: owner,
        cw20_address: msg.cw20_address@,
        cw721_address: None,
        unit_price: msg.unit_price as int,
        max_tokens: msg.max_tokens as int,
        name: msg.name@,
        symbol: msg.symbol@,
        token_uri: msg.token_uri@,
        extension: msg.extension,
        unused_token_id: 0,
    }
}

/// Completes a validated setup whose deployment payload is already encoded:
/// persists the fresh record and forms the one deployment request. Succeeds
/// on every input its precondition admits.
pub fn finish_setup(
    store: &mut ConfigStore,
    info_sender: String,
    contract_address: String,
    msg: InstantiateMsg,
    init_payload: Vec<u8>,
) -> (req: DeployRequest)
    requires
        msg.unit_price != 0,
        msg.max_tokens != 0,
    ensures
        final(store)@ == Some(setup_config(info_sender@, msg)),
        req.code_id == msg.token_code_id,
        req.reply_id == INSTANTIATE_TOKEN_REPLY_ID,
        req.minter@ == contract_address@,
        req.name@ == msg.name@,
        req.symbol@ == msg.symbol@,
        req.init_payload == init_payload,
{
    let config = Config {
        owner: info_sender,
        cw20_address: msg.cw20_address,
        cw721_address: None,
        unit_price: msg.unit_price,
        max_tokens: msg.max_tokens,
        name: msg.name.clone(),
        symbol: msg.symbol.clone(),
        token_uri: msg.token_uri,
        extension: msg.extension,
        unused_token_id: 0,
    };
    store.save(config);
    DeployRequest {
        code_id: msg.token_code_id,
        reply_id: INSTANTIATE_TOKEN_REPLY_ID,
        minter: contract_address,
        name: msg.name,
        symbol: msg.symbol,
        init_payload,
    }
}

/// Sets up the sale: validates the parameters, persists the initial record
/// and returns the one deployment request for the collection contract,
/// with this contract (under `contract_address`) as its exclusive minter.
pub fn instantiate(
    store: &mut ConfigStore,
    info_sender: String,
    contract_address: String,
    msg: InstantiateMsg,
) -> (r: Result<DeployRequest, ContractError>)
    ensures
        msg.unit_price == 0 ==> r == Err::<DeployRequest, _>(ContractError::InvalidUnitPrice {})
            && final(store)@ == old(store)@,
        msg.unit_price != 0 && msg.max_tokens == 0 ==> r == Err::<DeployRequest, _>(
            ContractError::InvalidMaxTokens {},
        ) && final(store)@ == old(store)@,
        msg.unit_price != 0 && msg.max_tokens != 0 ==> (r matches Ok(req) && {
            &&& final(store)@ == Some(setup_config(info_sender@, msg))
            &&& req.code_id == msg.token_code_id
            &&& req.reply_id == INSTANTIATE_TOKEN_REPLY_ID
            &&& req.minter@ == contract_address@
            &&& req.name@ == msg.name@
            &&& req.symbol@ == msg.symbol@
            &&& req.init_payload@ == collection_init_payload(
                msg.name@,
                msg.symbol@,
                contract_address@,
            )
        }),
{
    if msg.unit_price == 0 {
        return Err(ContractError::InvalidUnitPrice {});
    }
    if msg.max_tokens == 0 {
        return Err(ContractError::InvalidMaxTokens {});
    }

    let init_payload = match encode_collection_init(&msg.name, &msg.symbol, &contract_address) {
        Ok(p) => p,
        Err(e) => {
            return Err(e);
        },
    };
    Ok(finish_setup(store, info_sender, contract_address, msg, init_payload))
}

/// Completes a permitted purchase whose mint payload is already encoded:
/// advances the counter, persists, and forms the one mint instruction around
/// the given token id and payload. Succeeds on every input its precondition
/// admits; the payment checks stand with the caller.
pub fn finish_purchase(
    store: &mut ConfigStore,
    sender: String,
    token_id: String,
    payload: Vec<u8>,
) -> (mint: MintInstruction)
    requires
        old(store)@ matches Some(c) && c.cw721_address is Some && c.unused_token_id
            < c.max_tokens,
    ensures
        ({
            let c = old(store)@->Some_0;
            &&& final(store)@ == Some(purchase_next(c))
            &&& mint.collection@ == c.cw721_address->Some_0
            &&& mint.token_id == token_id
            &&& mint.owner == sender
            &&& mint.token_uri@ == c.token_uri
            &&& mint.extension == c.extension
            &&& mint.payload == payload
        }),
{
    let config = store.load();
    let collection = config.cw721_address.as_ref().unwrap().clone();
    let mint = MintInstruction {
        collection: collection.clone(),
        token_id,
        owner: sender,
        token_uri: config.token_uri.clone(),
        extension: config.extension,
        payload,
    };
    let advanced = Config {
        owner: config.owner.clone(),
        cw20_address: config.cw20_address.clone(),
        cw721_address: Some(collection),
        unit_price: config.unit_price,
        max_tokens: config.max_tokens,
        name: config.name.clone(),
        symbol: config.symbol.clone(),
        token_uri: config.token_uri.clone(),
        extension: config.extension,
        unused_token_id: config.unused_token_id + 1,
    };
    store.save(advanced);
    mint
}

/// Captures the deployment callback: under the expected correlation tag, and
/// only while no collection is linked yet, stores the deployed collection's
/// address. A malformed callback payload arrives as `Err` and is propagated
/// as a platform failure, never swallowed.
pub fn reply(
    store: &mut ConfigStore,
    reply_id: u64,
    payload: Result<String, String>,
) -> (r: Result<(), ContractError>)
    requires
        old(store)@ is Some,
    ensures
        ({
            let c = old(store)@->Some_0;
            &&& reply_id != INSTANTIATE_TOKEN_REPLY_ID ==> r == Err::<(), _>(
                ContractError::InvalidCorrelation {},
            ) && final(store)@ == old(store)@
            &&& reply_id == INSTANTIATE_TOKEN_REPLY_ID && c.cw721_address is Some ==> r == Err::<
                (),
                _,
            >(ContractError::AlreadyLinked {}) && final(store)@ == old(store)@
            &&& reply_id == INSTANTIATE_TOKEN_REPLY_ID && c.cw721_address is None ==> match payload {
                Ok(addr) => r == Ok::<(), ContractError>(()) && final(store)@ == Some(
                    ConfigV { cw721_address: Some(addr@), ..c },
                ),
                Err(m) => (r matches Err(e) && e matches ContractError::Std { msg } && msg@ == m@)
                    && final(store)@ == old(store)@,
            }
        }),
{
    if reply_id != INSTANTIATE_TOKEN_REPLY_ID {
        return Err(ContractError::InvalidCorrelation {});
    }
    let config = store.load();
    if config.cw721_address.is_some() {
        return Err(ContractError::AlreadyLinked {});
    }
    match payload {
        Ok(addr) => {
            let linked = Config {
                owner: config.owner.clone(),
                cw20_address: config.cw20_address.clone(),
                cw721_address: Some(addr),
                unit_price: config.unit_price,
                max_tokens: config.max_tokens,
                name: config.name.clone(),
                symbol: config.symbol.clone(),
                token_uri: config.token_uri.clone(),
                extension: config.extension,
                unused_token_id: config.unused_token_id,
            };
            store.save(linked);
            Ok(())
        },
        Err(m) => Err(ContractError::Std { msg: m }),
    }
}

/// The error a purchase attempt fails with, checked in this order; `None`
/// when every precondition holds and the mint is owed.
pub open spec fn receive_err(c: ConfigV, info_sender: Seq<char>, amount: u128) -> Option<
    ContractError,
> {
    if c.cw20_address != info_sender {
        Some(ContractError::UnauthorizedTokenContract {})
    } else if c.cw721_address is None {
        Some(ContractError::Uninitialized {})
    } else if c.unused_token_id >= c.max_tokens {
        Some(ContractError::SoldOut {})
    } else if amount as int != c.unit_price {
        Some(ContractError::WrongPaymentAmount {})
    } else {
        None
    }
}

/// The record after one successful purchase: only the counter advances, by
/// exactly one.
pub open spec fn purchase_next(c: ConfigV) -> ConfigV {
    ConfigV { unused_token_id: c.unused_token_id + 1, ..c }
}

/// What a successful purchase must hand back: a mint instruction for the
/// linked collection, minting the id the counter stood at (in decimal) to
/// the paying buyer, with the configured token uri and extension metadata.
pub open spec fn mint_ok(mint: MintInstruction, c: ConfigV, sender: Seq<char>) -> bool {
    &&& c.cw721_address matches Some(collection) && mint.collection@ == collection
    &&& mint.token_id@ == decimal_of(c.unused_token_id as nat)
    &&& mint.owner@ == sender
    &&& mint.token_uri@ == c.token_uri
    &&& mint.extension == c.extension
    &&& mint.payload@ == mint_payload(
        decimal_of(c.unused_token_id as nat),
        sender,
        c.token_uri,
        c.extension is Some,
    )
}

/// Handles a payment notification: after the four precondition checks, emits
/// exactly one mint instruction and advances the counter with it.
pub fn execute_receive(
    store: &mut ConfigStore,
    info_sender: String,
    sender: String,
    amount: u128,
    _msg: Vec<u8>,
) -> (r: Result<MintInstruction, ContractError>)
    requires
        old(store)@ is Some,
    ensures
        ({
            let c = old(store)@->Some_0;
            &&& receive_err(c, info_sender@, amount) matches Some(e) ==> r == Err::<
                MintInstruction,
                _,
            >(e) && final(store)@ == old(store)@
            &&& receive_err(c, info_sender@, amount) is None ==> (r matches Ok(mint)
                && final(store)@ == Some(purchase_next(c)) && mint_ok(mint, c, sender@))
        }),
{
    let config = store.load();
    if config.cw20_address != info_sender {
        return Err(ContractError::UnauthorizedTokenContract {});
    }
    if config.cw721_address.is_none() {
        return Err(ContractError::Uninitialized {});
    }
    if config.unused_token_id >= config.max_tokens {
        return Err(ContractError::SoldOut {});
    }
    if amount != config.unit_price {
        return Err(ContractError::WrongPaymentAmount {});
    }

    let token_id = u32_to_decimal(config.unused_token_id);
    let payload = match encode_mint(&token_id, &sender, &config.token_uri, &config.extension) {
        Ok(p) => p,
        Err(e) => {
            return Err(e);
        },
    };
    Ok(finish_purchase(store, sender, token_id, payload))
}

/// Routes each mutating operation to its handler; a payment notification
/// goes to `execute_receive`.
pub fn execute(store: &mut ConfigStore, info_sender: String, msg: ExecuteMsg) -> (r: Result<
    MintInstruction,
    ContractError,
>)
    requires
        old(store)@ is Some,
    ensures
        ({
            let c = old(store)@->Some_0;
            msg matches ExecuteMsg::Receive(rm) ==> {
                &&& receive_err(c, info_sender@, rm.amount) matches Some(e) ==> r == Err::<
                    MintInstruction,
                    _,
                >(e) && final(store)@ == old(store)@
                &&& receive_err(c, info_sender@, rm.amount) is None ==> (r matches Ok(mint)
                    && final(store)@ == Some(purchase_next(c)) && mint_ok(mint, c, rm.sender@))
            }
        }),
{
    match msg {
        ExecuteMsg::Receive(Cw20ReceiveMsg { sender, amount, msg }) => {
            execute_receive(store, info_sender, sender, amount, msg)
        },
    }
}

/// Read-only projection of every Configuration field; no side effects.
pub fn query_config(store: &ConfigStore) -> (r: ConfigResponse)
    requires
        store@ is Some,
    ensures
        r@ == store@->Some_0,
{
    let config = store.load();
    ConfigResponse {
        owner: config.owner.clone(),
        cw20_address: config.cw20_address.clone(),
        cw721_address: match &config.cw721_address {
            Some(a) => Some(a.clone()),
            None => None,
        },
        unit_price: config.unit_price,
        max_tokens: config.max_tokens,
        name: config.name.clone(),
        symbol: config.symbol.clone(),
        token_uri: config.token_uri.clone(),
        extension: config.extension,
        unused_token_id: config.unused_token_id,
    }
}

/// Routes each read-only operation to its projection.
pub fn query(store: &ConfigStore, msg: QueryMsg) -> (r: ConfigResponse)
    requires
        store@ is Some,
    ensures
        r@ == store@->Some_0,
{
    match msg {
        QueryMsg::GetConfig {} => query_config(store),
    }
}

} // verus!
