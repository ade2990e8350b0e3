use fixed_price_nft::contract::{
    execute, execute_receive, finish_purchase, finish_setup, instantiate, query, query_config,
    reply, INSTANTIATE_TOKEN_REPLY_ID,
};
use fixed_price_nft::error::ContractError;
use fixed_price_nft::msg::{Cw20ReceiveMsg, ExecuteMsg, InstantiateMsg, QueryMsg};
use fixed_price_nft::state::{ConfigStore, TokenExtension};

const CW20: &str = "orai1q9thmpmaqm0f8flccdmelhnwzkz5ueax46vyauxqz0ys73yrvf5ssluvnu";
const SELF_ADDR: &str = "cosmos2contract";

fn sample_msg(max_tokens: u32, unit_price: u128) -> InstantiateMsg {
    InstantiateMsg {
        max_tokens,
        unit_price,
        name: "FirstFT".to_string(),
        symbol: "FFT".to_string(),
        token_code_id: 7046,
        cw20_address: CW20.to_string(),
        token_uri: "Sample".to_string(),
        extension: None,
    }
}

fn setup_store(max_tokens: u32, unit_price: u128) -> ConfigStore {
    let mut store = ConfigStore::new();
    instantiate(
        &mut store,
        "sender".to_string(),
        SELF_ADDR.to_string(),
        sample_msg(max_tokens, unit_price),
    )
    .unwrap();
    store
}

fn linked_store(max_tokens: u32, unit_price: u128, collection: &str) -> ConfigStore {
    let mut store = setup_store(max_tokens, unit_price);
    reply(&mut store, INSTANTIATE_TOKEN_REPLY_ID, Ok(collection.to_string())).unwrap();
    store
}

#[test]
fn make_nft() {
    let mut store = ConfigStore::new();

    let msg = InstantiateMsg {
        max_tokens: 5,
        unit_price: 3,
        name: "FirstFT".to_string(),
        symbol: "FFT".to_string(),
        token_code_id: 7046,
        cw20_address: CW20.to_string(),
        token_uri: "Sample".to_string(),
        extension: None,
    };

    instantiate(&mut store, "sender".to_string(), SELF_ADDR.to_string(), msg).unwrap();

    let own = store.load().owner.clone();

    assert_eq!(own, "sender".to_string())
}

#[test]
fn setup_rejects_zero_unit_price() {
    let mut store = ConfigStore::new();
    let r = instantiate(
        &mut store,
        "sender".to_string(),
        SELF_ADDR.to_string(),
        sample_msg(5, 0),
    );
    assert_eq!(r.unwrap_err(), ContractError::InvalidUnitPrice {});
    assert!(!store.is_initialized());
}

#[test]
fn setup_rejects_zero_max_tokens() {
    let mut store = ConfigStore::new();
    let r = instantiate(
        &mut store,
        "sender".to_string(),
        SELF_ADDR.to_string(),
        sample_msg(0, 3),
    );
    assert_eq!(r.unwrap_err(), ContractError::InvalidMaxTokens {});
    assert!(!store.is_initialized());
}

#[test]
fn setup_persists_fresh_unlinked_record() {
    let store = setup_store(5, 3);
    let cfg = query_config(&store);
    assert_eq!(cfg.owner, "sender");
    assert_eq!(cfg.cw20_address, CW20);
    assert_eq!(cfg.cw721_address, None);
    assert_eq!(cfg.unit_price, 3);
    assert_eq!(cfg.max_tokens, 5);
    assert_eq!(cfg.name, "FirstFT");
    assert_eq!(cfg.symbol, "FFT");
    assert_eq!(cfg.token_uri, "Sample");
    assert_eq!(cfg.extension, None);
    assert_eq!(cfg.unused_token_id, 0);
}

#[test]
fn deploy_request_carries_setup_parameters() {
    let mut store = ConfigStore::new();
    let req = instantiate(
        &mut store,
        "sender".to_string(),
        SELF_ADDR.to_string(),
        sample_msg(5, 3),
    )
    .unwrap();
    assert_eq!(req.code_id, 7046);
    assert_eq!(req.reply_id, INSTANTIATE_TOKEN_REPLY_ID);
    assert_eq!(req.minter, SELF_ADDR);
    assert_eq!(req.name, "FirstFT");
    assert_eq!(req.symbol, "FFT");
}

#[test]
#[allow(deprecated)]
fn deploy_request_payload_is_collection_init_encoding() {
    let mut store = ConfigStore::new();
    let req = instantiate(
        &mut store,
        "sender".to_string(),
        SELF_ADDR.to_string(),
        sample_msg(5, 3),
    )
    .unwrap();
    let expected = cosmwasm_std::to_binary(&cw721_base::msg::InstantiateMsg {
        name: "FirstFT".to_string(),
        symbol: "FFT".to_string(),
        minter: SELF_ADDR.to_string(),
    })
    .unwrap()
    .to_vec();
    assert_eq!(req.init_payload, expected);
    assert_ne!(req.init_payload, "FirstFT".as_bytes().to_vec());
}

#[test]
fn callback_with_wrong_correlation_fails_unlinked() {
    let mut store = setup_store(5, 3);
    let r = reply(&mut store, 2, Ok("collectionA".to_string()));
    assert_eq!(r.unwrap_err(), ContractError::InvalidCorrelation {});
    assert_eq!(query_config(&store).cw721_address, None);
}

#[test]
fn callback_with_wrong_correlation_fails_linked() {
    let mut store = linked_store(5, 3, "collectionA");
    let r = reply(&mut store, 42, Ok("collectionB".to_string()));
    assert_eq!(r.unwrap_err(), ContractError::InvalidCorrelation {});
    assert_eq!(
        query_config(&store).cw721_address,
        Some("collectionA".to_string())
    );
}

#[test]
fn second_callback_fails_already_linked() {
    let mut store = linked_store(5, 3, "collectionA");
    let r = reply(
        &mut store,
        INSTANTIATE_TOKEN_REPLY_ID,
        Ok("collectionB".to_string()),
    );
    assert_eq!(r.unwrap_err(), ContractError::AlreadyLinked {});
    assert_eq!(
        query_config(&store).cw721_address,
        Some("collectionA".to_string())
    );
}

#[test]
fn malformed_callback_payload_is_propagated() {
    let mut store = setup_store(5, 3);
    let r = reply(
        &mut store,
        INSTANTIATE_TOKEN_REPLY_ID,
        Err("invalid reply data".to_string()),
    );
    assert_eq!(
        r.unwrap_err(),
        ContractError::Std {
            msg: "invalid reply data".to_string()
        }
    );
    assert_eq!(query_config(&store).cw721_address, None);
}

#[test]
fn purchase_before_linkage_fails_uninitialized() {
    let mut store = setup_store(5, 3);
    let r = execute_receive(
        &mut store,
        CW20.to_string(),
        "alice".to_string(),
        3,
        Vec::new(),
    );
    assert_eq!(r.unwrap_err(), ContractError::Uninitialized {});
    assert_eq!(query_config(&store).unused_token_id, 0);
}

#[test]
fn purchase_from_unknown_token_contract_fails() {
    let mut store = linked_store(5, 3, "collectionA");
    let r = execute_receive(
        &mut store,
        "someone-else".to_string(),
        "alice".to_string(),
        3,
        Vec::new(),
    );
    assert_eq!(r.unwrap_err(), ContractError::UnauthorizedTokenContract {});
    assert_eq!(query_config(&store).unused_token_id, 0);
}

#[test]
fn purchase_with_wrong_amount_fails() {
    let mut store = linked_store(5, 3, "collectionA");
    let r = execute_receive(
        &mut store,
        CW20.to_string(),
        "alice".to_string(),
        4,
        Vec::new(),
    );
    assert_eq!(r.unwrap_err(), ContractError::WrongPaymentAmount {});
    assert_eq!(query_config(&store).unused_token_id, 0);
}

#[test]
fn fixed_price_sale_scenario() {
    let mut store = ConfigStore::new();
    instantiate(
        &mut store,
        "sender".to_string(),
        SELF_ADDR.to_string(),
        sample_msg(5, 3),
    )
    .unwrap();
    reply(
        &mut store,
        INSTANTIATE_TOKEN_REPLY_ID,
        Ok("collectionA".to_string()),
    )
    .unwrap();
    assert_eq!(
        query_config(&store).cw721_address,
        Some("collectionA".to_string())
    );

    for expected_id in ["0", "1", "2"] {
        let mint = execute_receive(
            &mut store,
            CW20.to_string(),
            "alice".to_string(),
            3,
            Vec::new(),
        )
        .unwrap();
        assert_eq!(mint.collection, "collectionA");
        assert_eq!(mint.token_id, expected_id);
        assert_eq!(mint.owner, "alice");
        assert_eq!(mint.token_uri, "Sample");
    }
    assert_eq!(query_config(&store).unused_token_id, 3);

    let r = execute_receive(
        &mut store,
        CW20.to_string(),
        "alice".to_string(),
        2,
        Vec::new(),
    );
    assert_eq!(r.unwrap_err(), ContractError::WrongPaymentAmount {});
    assert_eq!(query_config(&store).unused_token_id, 3);
}

#[test]
fn sell_out_after_supply_cap() {
    let mut store = linked_store(1, 3, "collectionA");
    let mint = execute_receive(
        &mut store,
        CW20.to_string(),
        "alice".to_string(),
        3,
        Vec::new(),
    )
    .unwrap();
    assert_eq!(mint.token_id, "0");
    assert_eq!(query_config(&store).unused_token_id, 1);

    let r = execute_receive(
        &mut store,
        CW20.to_string(),
        "bob".to_string(),
        3,
        Vec::new(),
    );
    assert_eq!(r.unwrap_err(), ContractError::SoldOut {});
    assert_eq!(query_config(&store).unused_token_id, 1);
}

#[test]
#[allow(deprecated)]
fn mint_payload_is_cw721_mint_encoding() {
    let mut store = linked_store(5, 3, "collectionA");
    let mint = execute_receive(
        &mut store,
        CW20.to_string(),
        "alice".to_string(),
        3,
        Vec::new(),
    )
    .unwrap();
    let expected = cosmwasm_std::to_binary(
        &cw721_base::ExecuteMsg::<cw721_base::Extension, cosmwasm_std::Empty>::Mint(
            cw721_base::MintMsg {
                token_id: "0".to_string(),
                owner: "alice".to_string(),
                token_uri: Some("Sample".to_string()),
                extension: None,
            },
        ),
    )
    .unwrap()
    .to_vec();
    assert_eq!(mint.payload, expected);
    assert_ne!(mint.payload, Vec::<u8>::new());
}

#[test]
#[allow(deprecated)]
fn mint_payload_carries_extension_presence() {
    let mut store = ConfigStore::new();
    let mut msg = sample_msg(5, 3);
    msg.extension = Some(TokenExtension {});
    instantiate(&mut store, "sender".to_string(), SELF_ADDR.to_string(), msg).unwrap();
    reply(
        &mut store,
        INSTANTIATE_TOKEN_REPLY_ID,
        Ok("collectionA".to_string()),
    )
    .unwrap();
    let mint = execute_receive(
        &mut store,
        CW20.to_string(),
        "alice".to_string(),
        3,
        Vec::new(),
    )
    .unwrap();
    assert_eq!(mint.extension, Some(TokenExtension {}));
    let expected = cosmwasm_std::to_binary(
        &cw721_base::ExecuteMsg::<cw721_base::Extension, cosmwasm_std::Empty>::Mint(
            cw721_base::MintMsg {
                token_id: "0".to_string(),
                owner: "alice".to_string(),
                token_uri: Some("Sample".to_string()),
                extension: Some(cosmwasm_std::Empty {}),
            },
        ),
    )
    .unwrap()
    .to_vec();
    assert_eq!(mint.payload, expected);
}

#[test]
fn execute_routes_receive_notifications() {
    let mut store = linked_store(5, 3, "collectionA");
    let mint = execute(
        &mut store,
        CW20.to_string(),
        ExecuteMsg::Receive(Cw20ReceiveMsg {
            sender: "alice".to_string(),
            amount: 3,
            msg: Vec::new(),
        }),
    )
    .unwrap();
    assert_eq!(mint.token_id, "0");
    assert_eq!(mint.owner, "alice");
    assert_eq!(query_config(&store).unused_token_id, 1);
}

#[test]
fn finish_setup_persists_and_returns_request() {
    let mut store = ConfigStore::new();
    let req = finish_setup(
        &mut store,
        "sender".to_string(),
        SELF_ADDR.to_string(),
        sample_msg(5, 3),
        vec![1, 2, 3],
    );
    assert_eq!(req.code_id, 7046);
    assert_eq!(req.init_payload, vec![1, 2, 3]);
    let cfg = query_config(&store);
    assert_eq!(cfg.cw721_address, None);
    assert_eq!(cfg.unused_token_id, 0);
}

#[test]
fn finish_purchase_advances_counter_and_keeps_payload() {
    let mut store = linked_store(5, 3, "collectionA");
    let mint = finish_purchase(
        &mut store,
        "alice".to_string(),
        "0".to_string(),
        vec![9, 9],
    );
    assert_eq!(mint.collection, "collectionA");
    assert_eq!(mint.token_id, "0");
    assert_eq!(mint.owner, "alice");
    assert_eq!(mint.payload, vec![9, 9]);
    assert_eq!(query_config(&store).unused_token_id, 1);
}

#[test]
fn query_routes_get_config() {
    let store = linked_store(5, 3, "collectionA");
    let cfg = query(&store, QueryMsg::GetConfig {});
    assert_eq!(cfg.cw721_address, Some("collectionA".to_string()));
    assert_eq!(cfg.unit_price, 3);
}
