use vstd::prelude::*;

use crate::error::ContractError;
use crate::state::TokenExtension;

verus! {

/// The JSON bytes the collection-deployment request carries: the collection's
/// instantiation message with its display name, symbol and exclusive minter.
pub uninterp spec fn collection_init_payload(
    name: Seq<char>,
    symbol: Seq<char>,
    minter: Seq<char>,
) -> Seq<u8>;

/// The JSON bytes of a mint instruction for the collection contract: token
/// id, owner, token uri, and whether extension metadata is attached (the
/// extension itself carries no fields).
pub uninterp spec fn mint_payload(
    token_id: Seq<char>,
    owner: Seq<char>,
    token_uri: Seq<char>,
    has_extension: bool,
) -> Seq<u8>;

/// Relies on `cosmwasm_std::to_binary` applied to
/// `cw721_base::msg::InstantiateMsg`: the JSON encoding is deterministic, a
/// function of the three string fields alone, and always succeeds — the
/// serializer writes into a growable buffer, and a string-only message with
/// derived impls reaches no failing path.
#[verifier::external_body]
#[allow(deprecated)]
pub(crate) fn encode_collection_init(
    name: &String,
    symbol: &String,
    minter: &String,
) -> (r: Result<Vec<u8>, ContractError>)
    ensures
        r is Ok,
        r matches Ok(v) ==> v@ == collection_init_payload(name@, symbol@, minter@),
{
    match cosmwasm_std::to_binary(&cw721_base::msg::InstantiateMsg {
        name: name.clone(),
        symbol: symbol.clone(),
        minter: minter.clone(),
    }) {
        Ok(b) => Ok(b.to_vec()),
        Err(e) => Err(ContractError::Std { msg: format!("{}", e) }),
    }
}

/// Relies on `cosmwasm_std::to_binary` applied to
/// `cw721_base::ExecuteMsg::Mint`: the JSON encoding is deterministic, a
/// function of the mint fields alone (the token uri is always attached, the
/// extension type has no fields), and always succeeds — the serializer
/// writes into a growable buffer, and a string-only message with derived
/// impls reaches no failing path.
#[verifier::external_body]
#[allow(deprecated)]
pub(crate) fn encode_mint(
    token_id: &String,
    owner: &String,
    token_uri: &String,
    extension: &Option<TokenExtension>,
) -> (r: Result<Vec<u8>, ContractError>)
    ensures
        r is Ok,
        r matches Ok(v) ==> v@ == mint_payload(token_id@, owner@, token_uri@, extension is Some),
{
    let ext: cw721_base::Extension = extension.as_ref().map(|TokenExtension {}| cosmwasm_std::Empty {});
    let msg = cw721_base::ExecuteMsg::<cw721_base::Extension, cosmwasm_std::Empty>::Mint(
        cw721_base::MintMsg {
            token_id: token_id.clone(),
            owner: owner.clone(),
            token_uri: Some(token_uri.clone()),
            extension: ext,
        },
    );
    match cosmwasm_std::to_binary(&msg) {
        Ok(b) => Ok(b.to_vec()),
        Err(e) => Err(ContractError::Std { msg: format!("{}", e) }),
    }
}

} // verus!
