use wolf_power_up::contract::{
    complete_power_up, power_up_is_defined, OutMsg, PowerUpOutcome,
};
use wolf_power_up::metadata::{
    add_bone_boost, boost_step_is_defined, find_level_above, read_trait_number, upgrade_attributes,
    Extension, Metadata, NftDossier, Trait,
};
use wolf_power_up::msg::{ContractError, ContractInfo, Level, Token};
use wolf_power_up::state::State;

fn t(name: &str, value: &str) -> Trait {
    Trait { display_type: None, trait_type: Some(name.to_string()), value: value.to_string(), max_value: None }
}

fn dossier(owner: Option<&str>, attrs: Option<Vec<Trait>>) -> NftDossier {
    NftDossier {
        owner: owner.map(|o| o.to_string()),
        public_metadata: Some(Metadata { token_uri: None, extension: Some(Extension { attributes: attrs }) }),
    }
}

fn levels() -> Vec<Level> {
    vec![
        Level { level: 1, xp_needed: 0 },
        Level { level: 2, xp_needed: 100 },
        Level { level: 3, xp_needed: 250 },
        Level { level: 4, xp_needed: 500 },
    ]
}

fn contract(addr: &str) -> ContractInfo {
    ContractInfo { code_hash: format!("{addr}-hash"), address: addr.to_string() }
}

fn state() -> State {
    State {
        owner: "admin".to_string(),
        wolf_pack_contract: contract("wolves"),
        power_up_contract: contract("bones"),
        level_cap: 10,
        viewing_key: Some("vk".to_string()),
        total_power_ups: 2,
        total_xp_boost: 40,
        total_bones_used: 5,
    }
}

fn wolf_token() -> Token {
    Token {
        token_id: "wolf-7".to_string(),
        owner: "alice".to_string(),
        sender: "wolves".to_string(),
        related_token_ids: vec!["bone-1".to_string()],
    }
}

fn err_text(r: Result<PowerUpOutcome, ContractError>) -> String {
    match r {
        Err(ContractError::CustomError { val }) => val,
        Ok(_) => panic!("expected a refusal"),
    }
}

#[test]
fn bone_without_metadata_adds_nothing() {
    let d = NftDossier { owner: None, public_metadata: None };
    assert!(boost_step_is_defined(5, &d));
    assert_eq!(add_bone_boost(5, &d), 5);
    let d = NftDossier { owner: None, public_metadata: Some(Metadata { token_uri: None, extension: None }) };
    assert!(boost_step_is_defined(5, &d));
    assert_eq!(add_bone_boost(5, &d), 5);
}

#[test]
fn bone_boost_is_the_first_xp_boost_trait() {
    let d = dossier(None, Some(vec![t("Kind", "bone"), t("XP Boost", "15"), t("XP Boost", "99")]));
    assert!(boost_step_is_defined(10, &d));
    assert_eq!(add_bone_boost(10, &d), 25);
    let neg = dossier(None, Some(vec![t("XP Boost", "-3")]));
    assert_eq!(add_bone_boost(10, &neg), 7);
}

#[test]
fn bone_boost_undefined_cases() {
    assert!(!boost_step_is_defined(0, &dossier(None, None)));
    assert!(!boost_step_is_defined(0, &dossier(None, Some(vec![t("XP", "3")]))));
    assert!(!boost_step_is_defined(0, &dossier(None, Some(vec![t("XP Boost", "lots")]))));
    assert!(!boost_step_is_defined(i32::MAX, &dossier(None, Some(vec![t("XP Boost", "1")]))));
    assert!(boost_step_is_defined(i32::MAX - 1, &dossier(None, Some(vec![t("XP Boost", "1")]))));
}

#[test]
fn trait_lookup_and_level_lookup() {
    let attrs = vec![t("LVL", "2"), t("XP", "x"), t("XP", "5")];
    assert_eq!(read_trait_number(&attrs, &"LVL".to_string()), Some(2));
    assert_eq!(read_trait_number(&attrs, &"XP".to_string()), None);
    assert_eq!(read_trait_number(&attrs, &"Name".to_string()), None);
    assert_eq!(find_level_above(&levels(), 99), Some(1));
    assert_eq!(find_level_above(&levels(), 100), Some(2));
    assert_eq!(find_level_above(&levels(), 500), None);
}

#[test]
fn upgrade_raises_xp_and_level() {
    let attrs = vec![t("Name", "Fang"), t("XP", "100"), t("LVL", "2")];
    let u = upgrade_attributes(&attrs, &levels(), 10, 200).unwrap();
    assert_eq!(u.new_xp, 300);
    assert_eq!(u.current_lvl, 2);
    let values: Vec<&str> = u.attributes.iter().map(|a| a.value.as_str()).collect();
    assert_eq!(values, vec!["Fang", "300", "3"]);
    assert_eq!(u.level_increases, vec![3]);
    assert_eq!(u.attributes[1].trait_type.as_deref(), Some("XP"));
}

#[test]
fn upgrade_keeps_capped_level() {
    let attrs = vec![t("XP", "100"), t("LVL", "10")];
    let u = upgrade_attributes(&attrs, &levels(), 10, 200).unwrap();
    assert_eq!(u.attributes[1].value, "10");
    assert!(u.level_increases.is_empty());
}

#[test]
fn upgrade_undefined_cases() {
    assert!(upgrade_attributes(&vec![t("LVL", "1")], &levels(), 10, 1).is_none());
    assert!(upgrade_attributes(&vec![t("XP", "1")], &levels(), 10, 1).is_none());
    assert!(upgrade_attributes(&vec![t("XP", "1"), t("LVL", "z")], &levels(), 10, 1).is_none());
    assert!(upgrade_attributes(&vec![t("XP", "600"), t("LVL", "1")], &levels(), 10, 1).is_none());
    assert!(upgrade_attributes(&vec![t("XP", "2147483647"), t("LVL", "1")], &levels(), 10, 1).is_none());
    assert!(upgrade_attributes(&vec![t("XP", "600"), t("LVL", "11")], &levels(), 10, 1).is_some());
}

#[test]
fn power_up_full_run() {
    let st = state();
    let wolf = dossier(Some("me"), Some(vec![t("XP", "90"), t("LVL", "1")]));
    let ids = vec!["bone-1".to_string(), "bone-2".to_string()];
    assert!(power_up_is_defined(&st, &levels(), &ids, 20, &wolf, &"me".to_string()));
    let o = complete_power_up(&st, &levels(), &wolf_token(), &ids, 20, &wolf, &"me".to_string(), 1700)
        .unwrap_or_else(|_| panic!("refused"));
    assert_eq!(o.state.total_power_ups, 3);
    assert_eq!(o.state.total_xp_boost, 60);
    assert_eq!(o.state.total_bones_used, 7);
    assert_eq!(o.state.owner, "admin");
    assert_eq!(o.history.wolf_token_id, "wolf-7");
    assert_eq!(o.history.powerup_token_ids, ids);
    assert_eq!(o.history.power_up_date, Some(1700));
    assert_eq!(o.history.power_up_amount, 20);
    assert_eq!(
        o.attributes,
        vec![
            ("lvl_increase".to_string(), "2".to_string()),
            ("xp_boost_amount".to_string(), "20".to_string())
        ]
    );
    assert_eq!(o.messages.len(), 3);
    match &o.messages[0] {
        OutMsg::BatchBurnNft { token_ids, contract } => {
            assert_eq!(token_ids, &ids);
            assert_eq!(contract.address, "bones");
        }
        _ => panic!("burn expected first"),
    }
    match &o.messages[1] {
        OutMsg::SetMetadata { token_id, attributes, contract } => {
            assert_eq!(token_id, "wolf-7");
            assert_eq!(contract.address, "wolves");
            assert_eq!(attributes[0].value, "110");
            assert_eq!(attributes[1].value, "2");
        }
        _ => panic!("metadata update expected second"),
    }
    match &o.messages[2] {
        OutMsg::TransferNft { recipient, token_id, contract } => {
            assert_eq!(recipient, "alice");
            assert_eq!(token_id, "wolf-7");
            assert_eq!(contract.code_hash, "wolves-hash");
        }
        _ => panic!("transfer expected last"),
    }
}

#[test]
fn power_up_refusals() {
    let st = state();
    let ids = vec!["bone-1".to_string()];
    let me = "me".to_string();
    let none = NftDossier { owner: Some("me".to_string()), public_metadata: None };
    assert_eq!(
        err_text(complete_power_up(&st, &levels(), &wolf_token(), &ids, 1, &none, &me, 1)),
        "unable to get metadata from nft contract"
    );
    let uri_only = NftDossier {
        owner: Some("me".to_string()),
        public_metadata: Some(Metadata { token_uri: Some("ipfs://x".to_string()), extension: None }),
    };
    assert_eq!(
        err_text(complete_power_up(&st, &levels(), &wolf_token(), &ids, 1, &uri_only, &me, 1)),
        "unable to set metadata with uri"
    );
    let elsewhere = dossier(Some("someone"), Some(vec![t("XP", "1"), t("LVL", "1")]));
    assert!(power_up_is_defined(&st, &levels(), &ids, 1, &elsewhere, &me));
    assert_eq!(
        err_text(complete_power_up(&st, &levels(), &wolf_token(), &ids, 1, &elsewhere, &me, 1)),
        "Wolf not owned by contract"
    );
}

#[test]
fn power_up_undefined_cases() {
    let ids = vec!["bone-1".to_string()];
    let me = "me".to_string();
    let no_owner = dossier(None, Some(vec![t("XP", "1"), t("LVL", "1")]));
    assert!(!power_up_is_defined(&state(), &levels(), &ids, 1, &no_owner, &me));
    let mut full = state();
    full.total_power_ups = i32::MAX;
    let mine = dossier(Some("me"), Some(vec![t("XP", "1"), t("LVL", "1")]));
    assert!(!power_up_is_defined(&full, &levels(), &ids, 1, &mine, &me));
    assert!(power_up_is_defined(&full, &levels(), &ids, 1, &mine, &"other".to_string()));
}
