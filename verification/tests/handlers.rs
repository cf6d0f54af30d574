use wolf_power_up::contract::{
    batch_receive_is_defined, has_owner_permission, instantiate, query_power_up_info,
    try_batch_receive, try_send_nft_back, OutMsg, ReceiveOutcome, BLOCK_SIZE,
};
use wolf_power_up::msg::{
    ContractError, ContractInfo, InstantiateMsg, Level, Permit, PermitParams, PermitSignature, PubKey,
    RelatedTokensMsg, Token, TokenPermissions,
};
use wolf_power_up::state::State;

fn contract(addr: &str) -> ContractInfo {
    ContractInfo { code_hash: format!("{addr}-hash"), address: addr.to_string() }
}

fn state() -> State {
    State {
        owner: "admin".to_string(),
        wolf_pack_contract: contract("wolves"),
        power_up_contract: contract("bones"),
        level_cap: 10,
        viewing_key: Some("vk".to_string()),
        total_power_ups: 2,
        total_xp_boost: 40,
        total_bones_used: 5,
    }
}

fn related(ids: &[&str]) -> Option<RelatedTokensMsg> {
    Some(RelatedTokensMsg { related_token_ids: ids.iter().map(|i| i.to_string()).collect() })
}

fn held(owner: &str) -> Option<Token> {
    Some(Token {
        token_id: "wolf-7".to_string(),
        owner: owner.to_string(),
        sender: "wolves".to_string(),
        related_token_ids: vec!["bone-1".to_string()],
    })
}

fn ids(v: &[&str]) -> Vec<String> {
    v.iter().map(|i| i.to_string()).collect()
}

fn refusal<T>(r: Result<T, ContractError>) -> String {
    match r {
        Err(ContractError::CustomError { val }) => val,
        Ok(_) => panic!("expected a refusal"),
    }
}

fn s(x: &str) -> String {
    x.to_string()
}

#[test]
fn instantiate_sets_up_state_and_messages() {
    let msg = InstantiateMsg {
        entropy: s("abc"),
        wolf_pack_contract: contract("wolves"),
        power_up_contract: contract("bones"),
        level_cap: 30,
        levels: vec![Level { level: 1, xp_needed: 0 }, Level { level: 2, xp_needed: 10 }],
    };
    let r = instantiate(&s("creator"), &s("my-hash"), &msg);
    let vk = "NdlWlNPxYCFdspPHiZ2qWQeDeDj7S4EZ7XE+MkRsEmY=";
    assert_eq!(r.state.owner, "creator");
    assert_eq!(r.state.viewing_key.as_deref(), Some(vk));
    assert_eq!(r.state.level_cap, 30);
    assert_eq!((r.state.total_power_ups, r.state.total_xp_boost, r.state.total_bones_used), (0, 0, 0));
    assert_eq!(r.levels, msg.levels);
    assert_eq!(r.messages.len(), 4);
    let targets: Vec<(&str, &str)> = r
        .messages
        .iter()
        .map(|m| match m {
            OutMsg::RegisterReceiveNft { code_hash, contract } => {
                assert_eq!(code_hash, "my-hash");
                ("register", contract.address.as_str())
            }
            OutMsg::SetViewingKey { key, contract } => {
                assert_eq!(key, vk);
                ("key", contract.address.as_str())
            }
            _ => panic!("unexpected message"),
        })
        .collect();
    assert_eq!(targets, vec![("register", "wolves"), ("key", "wolves"), ("register", "bones"), ("key", "bones")]);
    assert_eq!(BLOCK_SIZE, 256);
}

#[test]
fn wolf_is_parked() {
    let r = try_batch_receive(&state(), &s("wolves"), &s("alice"), &ids(&["wolf-1"]), &related(&["b1", "b2"]), &None);
    match r {
        Ok(ReceiveOutcome::HoldWolf { token }) => {
            assert_eq!(token.token_id, "wolf-1");
            assert_eq!(token.owner, "alice");
            assert_eq!(token.sender, "wolves");
            assert_eq!(token.related_token_ids, ids(&["b1", "b2"]));
        }
        _ => panic!("wolf should be parked"),
    }
    let r = try_batch_receive(&state(), &s("wolves"), &s("alice"), &ids(&["wolf-1"]), &related(&["b1"]), &held(""));
    assert!(matches!(r, Ok(ReceiveOutcome::HoldWolf { .. })));
}

#[test]
fn wolf_batch_refusals() {
    let st = state();
    assert_eq!(
        refusal(try_batch_receive(&st, &s("wolves"), &s("alice"), &ids(&["w"]), &None, &None)),
        "Invalid message received"
    );
    assert_eq!(
        refusal(try_batch_receive(&st, &s("wolves"), &s("alice"), &ids(&["w"]), &related(&["b"]), &held("alice"))),
        "You already have a wolf in holding for power up"
    );
    assert_eq!(
        refusal(try_batch_receive(&st, &s("wolves"), &s("alice"), &ids(&["w1", "w2"]), &related(&["b"]), &None)),
        "You can only power up one wolf at a time"
    );
    assert_eq!(
        refusal(try_batch_receive(&st, &s("wolves"), &s("alice"), &ids(&["w"]), &related(&[]), &None)),
        "No power up selected"
    );
    assert_eq!(
        refusal(try_batch_receive(&st, &s("stranger"), &s("alice"), &ids(&["w"]), &related(&["b"]), &None)),
        "Not a valid contract address"
    );
    assert!(!batch_receive_is_defined(&st, &s("wolves"), &ids(&[]), &related(&["b"]), &None));
    assert!(batch_receive_is_defined(&st, &s("wolves"), &ids(&[]), &related(&[]), &None));
}

#[test]
fn bones_start_power_up() {
    let r = try_batch_receive(&state(), &s("bones"), &s("alice"), &ids(&["b1"]), &related(&[]), &held("alice"));
    match r {
        Ok(ReceiveOutcome::PowerUp { wolf, viewing_key }) => {
            assert_eq!(wolf.token_id, "wolf-7");
            assert_eq!(wolf.owner, "alice");
            assert_eq!(viewing_key, "vk");
        }
        _ => panic!("power-up should start"),
    }
    assert_eq!(
        refusal(try_batch_receive(&state(), &s("bones"), &s("alice"), &ids(&["b1"]), &related(&[]), &None)),
        "You do not have a wolf to power up :("
    );
    let mut keyless = state();
    keyless.viewing_key = None;
    assert!(!batch_receive_is_defined(&keyless, &s("bones"), &ids(&["b1"]), &related(&[]), &held("alice")));
}

#[test]
fn send_back_cases() {
    let st = state();
    match try_send_nft_back(&st, &s("admin"), &s("wolf-7"), &held("alice")) {
        Ok(OutMsg::TransferNft { recipient, token_id, contract }) => {
            assert_eq!(recipient, "alice");
            assert_eq!(token_id, "wolf-7");
            assert_eq!(contract.address, "wolves");
        }
        _ => panic!("transfer expected"),
    }
    assert_eq!(
        refusal(try_send_nft_back(&st, &s("admin"), &s("wolf-7"), &None)),
        "This address does not have anything staked"
    );
    assert_eq!(
        refusal(try_send_nft_back(&st, &s("alice"), &s("wolf-7"), &held("alice"))),
        "You don't have the permissions to execute this command"
    );
    assert_eq!(
        refusal(try_send_nft_back(&st, &s("admin"), &s("wolf-8"), &held("alice"))),
        "Token doesn't exist"
    );
}

#[test]
fn parked_wolf_then_sent_back_and_powered_up() {
    let st = state();
    let parked = match try_batch_receive(&st, &s("wolves"), &s("bob"), &ids(&["w9"]), &related(&["b"]), &None) {
        Ok(ReceiveOutcome::HoldWolf { token }) => token,
        _ => panic!("parked"),
    };
    let holding = Some(parked);
    assert!(try_batch_receive(&st, &s("wolves"), &s("bob"), &ids(&["w10"]), &related(&["b"]), &holding).is_err());
    assert!(matches!(
        try_batch_receive(&st, &s("bones"), &s("bob"), &ids(&["b"]), &related(&[]), &holding),
        Ok(ReceiveOutcome::PowerUp { .. })
    ));
    match try_send_nft_back(&st, &s("admin"), &s("w9"), &holding) {
        Ok(OutMsg::TransferNft { recipient, .. }) => assert_eq!(recipient, "bob"),
        _ => panic!("sent back"),
    }
}

#[test]
fn totals_and_permissions() {
    let info = query_power_up_info(&state());
    assert_eq!((info.total_power_ups, info.total_xp_boost, info.total_bones_used), (2, 40, 5));
    let mut permit = Permit {
        params: PermitParams {
            allowed_tokens: vec![s("me")],
            permit_name: s("p"),
            chain_id: s("secret-4"),
            permissions: vec![TokenPermissions::History, TokenPermissions::Owner],
        },
        signature: PermitSignature { pub_key: PubKey { key_type: s("tendermint/PubKeySecp256k1"), value: vec![1] }, signature: vec![2] },
    };
    assert!(has_owner_permission(&permit));
    permit.params.permissions = vec![TokenPermissions::History, TokenPermissions::Balance];
    assert!(!has_owner_permission(&permit));
    permit.params.permissions = vec![];
    assert!(!has_owner_permission(&permit));
}
