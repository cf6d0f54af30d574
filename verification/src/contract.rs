//! The contract's handlers, as decisions over what storage held and what the NFT
//! contracts answered, giving what to store and which messages to send.

use vstd::prelude::*;
use vstd::string::*;
use crate::decimal::{i32_to_text, int_text};
use crate::encoding::{viewing_key_from_entropy, viewing_key_spec};
use crate::metadata::{
    NftDossier, Trait, attributes_upgraded, level_increases, trait_number, upgrade_attributes,
    wolf_attrs_defined, xp_name, lvl_name,
};
use crate::msg::{
    ContractError, ContractInfo, HistoryToken, InstantiateMsg, Level, Permit, PowerUpInfoResponse,
    RelatedTokensMsg, Token, TokenPermissions,
};
use crate::state::State;

verus! {

/// The block size that outgoing SNIP-721 messages are padded to.
pub const BLOCK_SIZE: usize = 256;

/// A message to an NFT contract.
#[derive(Clone, Debug)]
pub enum OutMsg {
    /// register this contract, with code hash `code_hash`, as a receiver of `contract`'s tokens
    RegisterReceiveNft { code_hash: String, contract: ContractInfo },
    /// set this contract's viewing key with `contract`
    SetViewingKey { key: String, contract: ContractInfo },
    /// burn tokens of `contract`
    BatchBurnNft { token_ids: Vec<String>, contract: ContractInfo },
    /// replace the traits in the public metadata of a token of `contract`, keeping the
    /// rest of its metadata extension
    SetMetadata { token_id: String, attributes: Vec<Trait>, contract: ContractInfo },
    /// transfer a token of `contract`
    TransferNft { recipient: String, token_id: String, contract: ContractInfo },
}

/// Whether `r` is a refusal with message `text`.
pub open spec fn refused_with<T>(r: Result<T, ContractError>, text: Seq<char>) -> bool {
    r matches Err(ContractError::CustomError { val }) && val@ == text
}

fn refusal(text: &str) -> (e: ContractError)
    ensures
        e matches ContractError::CustomError { val } && val@ == text@,
{
    ContractError::CustomError { val: String::from_str(text) }
}

fn clone_contract_info(c: &ContractInfo) -> (r: ContractInfo)
    ensures
        r == *c,
{
    ContractInfo { code_hash: c.code_hash.clone(), address: c.address.clone() }
}

fn clone_strings(v: &Vec<String>) -> (r: Vec<String>)
    ensures
        r@ == v@,
{
    let mut r: Vec<String> = Vec::new();
    let mut i: usize = 0;
    while i < v.len()
        invariant
            i <= v@.len(),
            r@ == v@.subrange(0, i as int),
        decreases v@.len() - i,
    {
        r.push(v[i].clone());
        i = i + 1;
        assert(r@ =~= v@.subrange(0, i as int));
    }
    assert(v@.subrange(0, v@.len() as int) =~= v@);
    r
}

fn clone_levels(v: &Vec<Level>) -> (r: Vec<Level>)
    ensures
        r@ == v@,
{
    let mut r: Vec<Level> = Vec::new();
    let mut i: usize = 0;
    while i < v.len()
        invariant
            i <= v@.len(),
            r@ == v@.subrange(0, i as int),
        decreases v@.len() - i,
    {
        r.push(v[i]);
        i = i + 1;
        assert(r@ =~= v@.subrange(0, i as int));
    }
    assert(v@.subrange(0, v@.len() as int) =~= v@);
    r
}

fn clone_token(t: &Token) -> (r: Token)
    ensures
        r.token_id == t.token_id,
        r.owner == t.owner,
        r.sender == t.sender,
        r.related_token_ids@ == t.related_token_ids@,
{
    Token {
        token_id: t.token_id.clone(),
        owner: t.owner.clone(),
        sender: t.sender.clone(),
        related_token_ids: clone_strings(&t.related_token_ids),
    }
}

/// What setting up the contract stores and sends.
#[derive(Clone, Debug)]
pub struct InstantiateOutcome {
    pub state: State,
    pub levels: Vec<Level>,
    pub messages: Vec<OutMsg>,
}

/// Sets up the contract for `sender`: the configuration with zero totals and the
/// viewing key derived from the entropy, the level table, and the messages that
/// register this contract (with code hash `contract_code_hash`) as a receiver of both
/// collections and set its viewing key with each, wolf pack first.
pub fn instantiate(sender: &String, contract_code_hash: &String, msg: &InstantiateMsg) -> (r: InstantiateOutcome)
    ensures
        r.state.owner == *sender,
        r.state.wolf_pack_contract == msg.wolf_pack_contract,
        r.state.power_up_contract == msg.power_up_contract,
        r.state.level_cap == msg.level_cap,
        r.state.viewing_key matches Some(k) && k@ == viewing_key_spec(msg.entropy@),
        r.state.total_power_ups == 0,
        r.state.total_xp_boost == 0,
        r.state.total_bones_used == 0,
        r.levels@ == msg.levels@,
        r.messages@.len() == 4,
        r.messages@[0] == (OutMsg::RegisterReceiveNft {
            code_hash: *contract_code_hash,
            contract: msg.wolf_pack_contract,
        }),
        r.messages@[1] matches OutMsg::SetViewingKey { key, contract } && key@ == viewing_key_spec(msg.entropy@)
            && contract == msg.wolf_pack_contract,
        r.messages@[2] == (OutMsg::RegisterReceiveNft {
            code_hash: *contract_code_hash,
            contract: msg.power_up_contract,
        }),
        r.messages@[3] matches OutMsg::SetViewingKey { key, contract } && key@ == viewing_key_spec(msg.entropy@)
            && contract == msg.power_up_contract,
{
    let viewing_key = viewing_key_from_entropy(&msg.entropy);
    let mut messages: Vec<OutMsg> = Vec::new();
    messages.push(OutMsg::RegisterReceiveNft {
        code_hash: contract_code_hash.clone(),
        contract: clone_contract_info(&msg.wolf_pack_contract),
    });
    messages.push(OutMsg::SetViewingKey {
        key: viewing_key.clone(),
        contract: clone_contract_info(&msg.wolf_pack_contract),
    });
    messages.push(OutMsg::RegisterReceiveNft {
        code_hash: contract_code_hash.clone(),
        contract: clone_contract_info(&msg.power_up_contract),
    });
    messages.push(OutMsg::SetViewingKey {
        key: viewing_key.clone(),
        contract: clone_contract_info(&msg.power_up_contract),
    });
    let state = State {
        owner: sender.clone(),
        wolf_pack_contract: clone_contract_info(&msg.wolf_pack_contract),
        power_up_contract: clone_contract_info(&msg.power_up_contract),
        level_cap: msg.level_cap,
        viewing_key: Some(viewing_key),
        total_power_ups: 0,
        total_xp_boost: 0,
        total_bones_used: 0,
    };
    InstantiateOutcome { state, levels: clone_levels(&msg.levels), messages }
}

/// Whether the stored holding entry stands for a held wolf: a missing entry, or one
/// with an empty owner, stands for none.
pub open spec fn holds_wolf(holding: Option<Token>) -> bool {
    holding matches Some(t) && t.owner@.len() > 0
}

/// What a batch of received tokens leads to, when it is not refused.
#[derive(Clone, Debug)]
pub enum ReceiveOutcome {
    /// store `token` as the wolf held for its owner
    HoldWolf { token: Token },
    /// power up the held wolf `wolf` with the received tokens; the NFT contracts are
    /// queried with `viewing_key`
    PowerUp { wolf: Token, viewing_key: String },
}

/// Whether handling a received batch goes through without the contract giving up:
/// a wolf batch that passes the checks must name a token, and a power-up batch for a
/// held wolf needs the contract's viewing key.
pub open spec fn batch_receive_defined(
    state: State,
    sender: String,
    token_ids: Seq<String>,
    msg: Option<RelatedTokensMsg>,
    holding: Option<Token>,
) -> bool {
    msg matches Some(m) ==> {
        if sender@ == state.wolf_pack_contract.address@ {
            (!holds_wolf(holding) && token_ids.len() <= 1 && m.related_token_ids@.len() > 0) ==> token_ids.len() == 1
        } else if sender@ == state.power_up_contract.address@ {
            holds_wolf(holding) ==> state.viewing_key is Some
        } else {
            true
        }
    }
}

/// What handling tokens `token_ids` sent by `sender` on behalf of `from` gives, with
/// payload `msg` and holding entry `holding` for `from`.
pub open spec fn batch_receive_spec(
    state: State,
    sender: String,
    from: String,
    token_ids: Seq<String>,
    msg: Option<RelatedTokensMsg>,
    holding: Option<Token>,
    r: Result<ReceiveOutcome, ContractError>,
) -> bool {
    match msg {
        None => refused_with(r, "Invalid message received"@),
        Some(m) => if sender@ == state.wolf_pack_contract.address@ {
            if holds_wolf(holding) {
                refused_with(r, "You already have a wolf in holding for power up"@)
            } else if token_ids.len() > 1 {
                refused_with(r, "You can only power up one wolf at a time"@)
            } else if m.related_token_ids@.len() == 0 {
                refused_with(r, "No power up selected"@)
            } else {
                r matches Ok(ReceiveOutcome::HoldWolf { token }) && token.token_id == token_ids[0]
                    && token.owner == from && token.sender == sender && token.related_token_ids@
                    == m.related_token_ids@
            }
        } else if sender@ == state.power_up_contract.address@ {
            if !holds_wolf(holding) {
                refused_with(r, "You do not have a wolf to power up :("@)
            } else {
                r matches Ok(ReceiveOutcome::PowerUp { wolf, viewing_key }) && wolf.token_id
                    == holding->0.token_id && wolf.owner == holding->0.owner && wolf.sender
                    == holding->0.sender && wolf.related_token_ids@ == holding->0.related_token_ids@
                    && viewing_key == state.viewing_key->0
            }
        } else {
            refused_with(r, "Not a valid contract address"@)
        },
    }
}

/// Whether handling a received batch goes through; see `batch_receive_defined`.
pub fn batch_receive_is_defined(
    state: &State,
    sender: &String,
    token_ids: &Vec<String>,
    msg: &Option<RelatedTokensMsg>,
    holding: &Option<Token>,
) -> (r: bool)
    ensures
        r == batch_receive_defined(*state, *sender, token_ids@, *msg, *holding),
{
    match msg {
        None => true,
        Some(m) => {
            let held = match holding {
                Some(t) => t.owner.as_str().unicode_len() > 0,
                None => false,
            };
            if *sender == state.wolf_pack_contract.address {
                !(!held && token_ids.len() <= 1 && m.related_token_ids.len() > 0) || token_ids.len() == 1
            } else if *sender == state.power_up_contract.address {
                !held || state.viewing_key.is_some()
            } else {
                true
            }
        },
    }
}

/// Handles tokens received from an NFT contract. A batch from the wolf-pack contract
/// parks one wolf for `from`, with the chosen power-up tokens; a batch from the
/// power-up contract starts the power-up of the wolf held for `from`.
pub fn try_batch_receive(
    state: &State,
    sender: &String,
    from: &String,
    token_ids: &Vec<String>,
    msg: &Option<RelatedTokensMsg>,
    holding: &Option<Token>,
) -> (r: Result<ReceiveOutcome, ContractError>)
    requires
        batch_receive_defined(*state, *sender, token_ids@, *msg, *holding),
    ensures
        batch_receive_spec(*state, *sender, *from, token_ids@, *msg, *holding, r),
{
    let m = match msg {
        None => return Err(refusal("Invalid message received")),
        Some(m) => m,
    };
    let held = match holding {
        Some(t) => t.owner.as_str().unicode_len() > 0,
        None => false,
    };
    if *sender == state.wolf_pack_contract.address {
        if held {
            return Err(refusal("You already have a wolf in holding for power up"));
        }
        if token_ids.len() > 1 {
            return Err(refusal("You can only power up one wolf at a time"));
        }
        if m.related_token_ids.len() == 0 {
            return Err(refusal("No power up selected"));
        }
        let token = Token {
            token_id: token_ids[0].clone(),
            owner: from.clone(),
            sender: sender.clone(),
            related_token_ids: clone_strings(&m.related_token_ids),
        };
        Ok(ReceiveOutcome::HoldWolf { token })
    } else if *sender == state.power_up_contract.address {
        if !held {
            return Err(refusal("You do not have a wolf to power up :("));
        }
        let wolf = clone_token(holding.as_ref().unwrap());
        let viewing_key = state.viewing_key.as_ref().unwrap().clone();
        Ok(ReceiveOutcome::PowerUp { wolf, viewing_key })
    } else {
        Err(refusal("Not a valid contract address"))
    }
}

/// Whether the totals can take one more power-up of `boost` with `bones` tokens
/// without leaving the range of `i32`.
pub open spec fn totals_fit(state: State, boost: i32, bones: nat) -> bool {
    &&& state.total_power_ups + 1 <= i32::MAX
    &&& i32::MIN <= state.total_xp_boost + boost <= i32::MAX
    &&& i32::MIN <= state.total_bones_used + (bones as i32) <= i32::MAX
}

/// Whether finishing a power-up goes through without the contract giving up: where
/// the wolf has a metadata extension, its traits can be brought up to date, its owner
/// is known, and if that owner is this contract, the totals fit.
pub open spec fn power_up_defined(
    state: State,
    levels: Seq<Level>,
    token_ids: Seq<String>,
    xp_boost: i32,
    wolf: NftDossier,
    contract_address: String,
) -> bool {
    match wolf.public_metadata {
        None => true,
        Some(m) => match m.extension {
            None => true,
            Some(ext) => {
                &&& ext.attributes matches Some(attrs) && wolf_attrs_defined(
                    attrs@,
                    levels,
                    state.level_cap,
                    xp_boost,
                )
                &&& wolf.owner is Some
                &&& wolf.owner->0@ == contract_address@ ==> totals_fit(state, xp_boost, token_ids.len())
            },
        },
    }
}

/// What a finished power-up stores and sends.
#[derive(Clone, Debug)]
pub struct PowerUpOutcome {
    /// the configuration with the new totals
    pub state: State,
    /// burn the power-up tokens, update the wolf's traits, send the wolf back
    pub messages: Vec<OutMsg>,
    /// the record to append to the owner's history
    pub history: HistoryToken,
    /// the response attributes
    pub attributes: Vec<(String, String)>,
}

/// Whether `attrs` are the response attributes of a power-up: one `lvl_increase` per
/// risen level, in order, then the boost as `xp_boost_amount`.
pub open spec fn power_up_attributes(attrs: Seq<(String, String)>, increases: Seq<i32>, xp_boost: i32) -> bool {
    &&& attrs.len() == increases.len() + 1
    &&& forall|i: int| #![trigger attrs[i]] 0 <= i < increases.len() ==> attrs[i].0@ == "lvl_increase"@
        && attrs[i].1@ == int_text(increases[i] as int)
    &&& attrs[increases.len() as int].0@ == "xp_boost_amount"@
    &&& attrs[increases.len() as int].1@ == int_text(xp_boost as int)
}

/// What finishing the power-up of wolf `wolf_token` with tokens `token_ids` and boost
/// `xp_boost` gives, where the wolf-pack contract answered `wolf` about it.
pub open spec fn power_up_spec(
    state: State,
    levels: Seq<Level>,
    wolf_token: Token,
    token_ids: Seq<String>,
    xp_boost: i32,
    wolf: NftDossier,
    contract_address: String,
    block_time: u64,
    r: Result<PowerUpOutcome, ContractError>,
) -> bool {
    match wolf.public_metadata {
        None => refused_with(r, "unable to get metadata from nft contract"@),
        Some(m) => match m.extension {
            None => refused_with(r, "unable to set metadata with uri"@),
            Some(ext) => {
                let attrs = ext.attributes->0@;
                let new_xp = trait_number(attrs, xp_name())->0 + xp_boost;
                let current_lvl = trait_number(attrs, lvl_name())->0;
                if wolf.owner->0@ != contract_address@ {
                    refused_with(r, "Wolf not owned by contract"@)
                } else {
                    r matches Ok(o) && {
                        &&& o.state.owner == state.owner
                        &&& o.state.wolf_pack_contract == state.wolf_pack_contract
                        &&& o.state.power_up_contract == state.power_up_contract
                        &&& o.state.level_cap == state.level_cap
                        &&& o.state.viewing_key == state.viewing_key
                        &&& o.state.total_power_ups == state.total_power_ups + 1
                        &&& o.state.total_xp_boost == state.total_xp_boost + xp_boost
                        &&& o.state.total_bones_used == state.total_bones_used + (token_ids.len() as i32)
                        &&& o.messages@.len() == 3
                        &&& o.messages@[0] matches OutMsg::BatchBurnNft { token_ids: burned, contract }
                            && burned@ == token_ids && contract == state.power_up_contract
                        &&& o.messages@[1] matches OutMsg::SetMetadata { token_id, attributes, contract }
                            && token_id == wolf_token.token_id && contract == state.wolf_pack_contract
                            && attributes_upgraded(attributes@, attrs, levels, state.level_cap, new_xp)
                        &&& o.messages@[2] == (OutMsg::TransferNft {
                            recipient: wolf_token.owner,
                            token_id: wolf_token.token_id,
                            contract: state.wolf_pack_contract,
                        })
                        &&& o.history.wolf_token_id == wolf_token.token_id
                        &&& o.history.powerup_token_ids@ == token_ids
                        &&& o.history.power_up_date == Some(block_time)
                        &&& o.history.power_up_amount == xp_boost
                        &&& power_up_attributes(
                            o.attributes@,
                            level_increases(attrs, attrs.len() as int, levels, state.level_cap, new_xp, current_lvl as int),
                            xp_boost,
                        )
                    }
                }
            },
        },
    }
}

fn clone_state(s: &State) -> (r: State)
    ensures
        r == *s,
{
    State {
        owner: s.owner.clone(),
        wolf_pack_contract: clone_contract_info(&s.wolf_pack_contract),
        power_up_contract: clone_contract_info(&s.power_up_contract),
        level_cap: s.level_cap,
        viewing_key: match &s.viewing_key {
            Some(k) => Some(k.clone()),
            None => None,
        },
        total_power_ups: s.total_power_ups,
        total_xp_boost: s.total_xp_boost,
        total_bones_used: s.total_bones_used,
    }
}

/// Whether finishing a power-up goes through; see `power_up_defined`.
pub fn power_up_is_defined(
    state: &State,
    levels: &Vec<Level>,
    token_ids: &Vec<String>,
    xp_boost: i32,
    wolf: &NftDossier,
    contract_address: &String,
) -> (r: bool)
    ensures
        r == power_up_defined(*state, levels@, token_ids@, xp_boost, *wolf, *contract_address),
{
    match &wolf.public_metadata {
        None => true,
        Some(m) => match &m.extension {
            None => true,
            Some(ext) => {
                let attrs = match &ext.attributes {
                    Some(a) => a,
                    None => return false,
                };
                if upgrade_attributes(attrs, levels, state.level_cap, xp_boost).is_none() {
                    return false;
                }
                match &wolf.owner {
                    None => false,
                    Some(o) => {
                        if *o == *contract_address {
                            let bones = token_ids.len() as i32;
                            let p: i64 = state.total_power_ups as i64 + 1;
                            let x: i64 = state.total_xp_boost as i64 + xp_boost as i64;
                            let b: i64 = state.total_bones_used as i64 + bones as i64;
                            p <= 2147483647 && -2147483648 <= x && x <= 2147483647
                                && -2147483648 <= b && b <= 2147483647
                        } else {
                            true
                        }
                    },
                }
            },
        },
    }
}

/// Finishes the power-up of the held wolf `wolf_token` with the received tokens
/// `token_ids`, whose boosts add up to `xp_boost`, given what the wolf-pack contract
/// answered about the wolf. The wolf's "XP" traits get the boosted XP, its "LVL"
/// traits the level that the table gives for it (below the level cap), the tokens are
/// burned, the wolf goes back to its owner, a history record is made and the totals
/// grow. A wolf that this contract does not own is refused.
pub fn complete_power_up(
    state: &State,
    levels: &Vec<Level>,
    wolf_token: &Token,
    token_ids: &Vec<String>,
    xp_boost: i32,
    wolf: &NftDossier,
    contract_address: &String,
    block_time: u64,
) -> (r: Result<PowerUpOutcome, ContractError>)
    requires
        power_up_defined(*state, levels@, token_ids@, xp_boost, *wolf, *contract_address),
    ensures
        power_up_spec(
            *state,
            levels@,
            *wolf_token,
            token_ids@,
            xp_boost,
            *wolf,
            *contract_address,
            block_time,
            r,
        ),
{
    let m = match &wolf.public_metadata {
        None => return Err(refusal("unable to get metadata from nft contract")),
        Some(m) => m,
    };
    let ext = match &m.extension {
        None => return Err(refusal("unable to set metadata with uri")),
        Some(e) => e,
    };
    let attrs = ext.attributes.as_ref().unwrap();
    let upgrade = upgrade_attributes(attrs, levels, state.level_cap, xp_boost).unwrap();
    let mut attributes: Vec<(String, String)> = Vec::new();
    let mut i: usize = 0;
    while i < upgrade.level_increases.len()
        invariant
            i <= upgrade.level_increases@.len(),
            attributes@.len() == i,
            forall|j: int| #![trigger attributes@[j]] 0 <= j < i ==> attributes@[j].0@ == "lvl_increase"@
                && attributes@[j].1@ == int_text(upgrade.level_increases@[j] as int),
        decreases upgrade.level_increases@.len() - i,
    {
        attributes.push((String::from_str("lvl_increase"), i32_to_text(upgrade.level_increases[i])));
        i = i + 1;
    }
    let owner = wolf.owner.as_ref().unwrap();
    if *owner != *contract_address {
        return Err(refusal("Wolf not owned by contract"));
    }
    attributes.push((String::from_str("xp_boost_amount"), i32_to_text(xp_boost)));
    let mut messages: Vec<OutMsg> = Vec::new();
    messages.push(OutMsg::BatchBurnNft {
        token_ids: clone_strings(token_ids),
        contract: clone_contract_info(&state.power_up_contract),
    });
    messages.push(OutMsg::SetMetadata {
        token_id: wolf_token.token_id.clone(),
        attributes: upgrade.attributes,
        contract: clone_contract_info(&state.wolf_pack_contract),
    });
    messages.push(OutMsg::TransferNft {
        recipient: wolf_token.owner.clone(),
        token_id: wolf_token.token_id.clone(),
        contract: clone_contract_info(&state.wolf_pack_contract),
    });
    let history = HistoryToken {
        wolf_token_id: wolf_token.token_id.clone(),
        powerup_token_ids: clone_strings(token_ids),
        power_up_date: Some(block_time),
        power_up_amount: xp_boost,
    };
    let mut new_state = clone_state(state);
    new_state.total_power_ups = state.total_power_ups + 1;
    new_state.total_xp_boost = state.total_xp_boost + xp_boost;
    new_state.total_bones_used = state.total_bones_used + token_ids.len() as i32;
    Ok(PowerUpOutcome { state: new_state, messages, history, attributes })
}

/// What asking for the held wolf `token_id` of an owner back gives, where `holding`
/// is that owner's holding entry.
pub open spec fn send_back_spec(
    state: State,
    sender: String,
    token_id: String,
    holding: Option<Token>,
    r: Result<OutMsg, ContractError>,
) -> bool {
    if !holds_wolf(holding) {
        refused_with(r, "This address does not have anything staked"@)
    } else if sender@ != state.owner@ {
        refused_with(r, "You don't have the permissions to execute this command"@)
    } else if holding->0.token_id@ == token_id@ {
        r == Ok::<OutMsg, ContractError>(
            OutMsg::TransferNft {
                recipient: holding->0.owner,
                token_id: holding->0.token_id,
                contract: state.wolf_pack_contract,
            },
        )
    } else {
        refused_with(r, "Token doesn't exist"@)
    }
}

/// Sends a held wolf back to its owner, on the contract owner's request: the transfer
/// to make, after which the holding entry is removed.
pub fn try_send_nft_back(state: &State, sender: &String, token_id: &String, holding: &Option<Token>) -> (r: Result<
    OutMsg,
    ContractError,
>)
    ensures
        send_back_spec(*state, *sender, *token_id, *holding, r),
{
    let held = match holding {
        Some(t) => t.owner.as_str().unicode_len() > 0,
        None => false,
    };
    if !held {
        return Err(refusal("This address does not have anything staked"));
    }
    if *sender != state.owner {
        return Err(refusal("You don't have the permissions to execute this command"));
    }
    let nft = holding.as_ref().unwrap();
    if nft.token_id == *token_id {
        Ok(
            OutMsg::TransferNft {
                recipient: nft.owner.clone(),
                token_id: nft.token_id.clone(),
                contract: clone_contract_info(&state.wolf_pack_contract),
            },
        )
    } else {
        Err(refusal("Token doesn't exist"))
    }
}

/// The contract's totals.
pub fn query_power_up_info(state: &State) -> (r: PowerUpInfoResponse)
    ensures
        r.total_power_ups == state.total_power_ups,
        r.total_xp_boost == state.total_xp_boost,
        r.total_bones_used == state.total_bones_used,
{
    PowerUpInfoResponse {
        total_bones_used: state.total_bones_used,
        total_power_ups: state.total_power_ups,
        total_xp_boost: state.total_xp_boost,
    }
}

/// Whether a permit grants the owner permission, which history queries need.
pub fn has_owner_permission(permit: &Permit) -> (r: bool)
    ensures
        r == permit.params.permissions@.contains(TokenPermissions::Owner),
{
    let perms = &permit.params.permissions;
    let mut i: usize = 0;
    while i < perms.len()
        invariant
            i <= perms@.len(),
            perms@ == permit.params.permissions@,
            forall|j: int| 0 <= j < i ==> perms@[j] != TokenPermissions::Owner,
        decreases perms@.len() - i,
    {
        if let TokenPermissions::Owner = perms[i] {
            assert(permit.params.permissions@[i as int] == TokenPermissions::Owner);
            return true;
        }
        i = i + 1;
    }
    false
}

} // verus!
