//! Properties that span the handlers: what parking a wolf allows next, and what the
//! updated traits read back as.

use vstd::prelude::*;
use crate::contract::{
    batch_receive_spec, power_up_defined, power_up_spec, send_back_spec, OutMsg, ReceiveOutcome,
};
use crate::decimal::int_text;
use crate::decimal::{lemma_text_round_trip, parse_i32_spec};
use crate::metadata::{
    Extension, Metadata, NftDossier, Trait, WolfUpgrade, attributes_upgraded, bone_boost,
    boost_step_defined, has_type, is_first_level_above, is_first_of_type, is_upgrade_of, lvl_name,
    level_increases, lvl_target, lvl_target_defined, trait_number, trait_value, upgraded_value,
    wolf_attrs_defined, xp_boost_name,
    xp_name, xp_updated_value,
};
use crate::msg::{ContractError, Level, RelatedTokensMsg, Token};
use crate::state::State;
use crate::msg::ContractInfo;

verus! {

/// A wolf parked for a non-empty address counts as held: a power-up batch from the
/// power-up contract for that address starts the power-up of exactly that wolf.
pub proof fn law_parked_wolf_can_be_powered_up(
    state: State,
    from: String,
    token_ids: Seq<String>,
    msg: Option<RelatedTokensMsg>,
    holding: Option<Token>,
    parked: Result<ReceiveOutcome, ContractError>,
    bone_ids: Seq<String>,
    bone_msg: Option<RelatedTokensMsg>,
    powered: Result<ReceiveOutcome, ContractError>,
)
    requires
        from@.len() > 0,
        batch_receive_spec(state, state.wolf_pack_contract.address, from, token_ids, msg, holding, parked),
        parked is Ok,
        state.power_up_contract.address@ != state.wolf_pack_contract.address@,
        bone_msg is Some,
        batch_receive_spec(
            state,
            state.power_up_contract.address,
            from,
            bone_ids,
            bone_msg,
            Some(parked->Ok_0->token),
            powered,
        ),
    ensures
        powered matches Ok(ReceiveOutcome::PowerUp { wolf, viewing_key }) && wolf.token_id
            == parked->Ok_0->token.token_id && wolf.owner == from,
{
}

/// A second wolf from an address whose wolf is parked is refused.
pub proof fn law_one_wolf_at_a_time(
    state: State,
    from: String,
    token_ids: Seq<String>,
    msg: Option<RelatedTokensMsg>,
    holding: Option<Token>,
    parked: Result<ReceiveOutcome, ContractError>,
    other_ids: Seq<String>,
    other_msg: Option<RelatedTokensMsg>,
    second: Result<ReceiveOutcome, ContractError>,
)
    requires
        from@.len() > 0,
        batch_receive_spec(state, state.wolf_pack_contract.address, from, token_ids, msg, holding, parked),
        parked is Ok,
        other_msg is Some,
        batch_receive_spec(
            state,
            state.wolf_pack_contract.address,
            from,
            other_ids,
            other_msg,
            Some(parked->Ok_0->token),
            second,
        ),
    ensures
        second is Err,
{
}

/// The contract's owner can have a parked wolf sent back: the transfer goes to the
/// address the wolf came from, through the wolf-pack contract.
pub proof fn law_parked_wolf_can_be_sent_back(
    state: State,
    from: String,
    token_ids: Seq<String>,
    msg: Option<RelatedTokensMsg>,
    holding: Option<Token>,
    parked: Result<ReceiveOutcome, ContractError>,
    sent: Result<OutMsg, ContractError>,
)
    requires
        from@.len() > 0,
        batch_receive_spec(state, state.wolf_pack_contract.address, from, token_ids, msg, holding, parked),
        parked is Ok,
        send_back_spec(state, state.owner, token_ids[0], Some(parked->Ok_0->token), sent),
    ensures
        sent matches Ok(OutMsg::TransferNft { recipient, token_id, contract }) && recipient == from
            && token_id == token_ids[0] && contract == state.wolf_pack_contract,
{
}

/// Only the contract's owner gets a held wolf sent back.
pub proof fn law_only_owner_sends_back(
    state: State,
    sender: String,
    token_id: String,
    holding: Option<Token>,
    sent: Result<OutMsg, ContractError>,
)
    requires
        sender@ != state.owner@,
        send_back_spec(state, sender, token_id, holding, sent),
    ensures
        sent is Err,
{
}

/// After a power-up, an "XP" trait (that is no "LVL" trait) reads back as the boosted XP.
pub proof fn law_xp_trait_reads_back(
    new: Seq<Trait>,
    old: Seq<Trait>,
    levels: Seq<Level>,
    cap: i32,
    new_xp: i32,
    i: int,
)
    requires
        attributes_upgraded(new, old, levels, cap, new_xp as int),
        0 <= i < old.len(),
        has_type(old[i], xp_name()),
        !has_type(old[i], lvl_name()),
    ensures
        parse_i32_spec(new[i].value@) == Some(new_xp),
{
    lemma_text_round_trip(new_xp);
}

/// After a power-up, an updatable "LVL" trait reads back as its new level; one at or
/// above the level cap keeps its level.
pub proof fn law_level_trait_reads_back(
    new: Seq<Trait>,
    old: Seq<Trait>,
    levels: Seq<Level>,
    cap: i32,
    new_xp: i32,
    i: int,
)
    requires
        attributes_upgraded(new, old, levels, cap, new_xp as int),
        0 <= i < old.len(),
        has_type(old[i], lvl_name()),
        lvl_target_defined(xp_updated_value(old[i], new_xp as int), levels, cap, new_xp as int),
    ensures
        parse_i32_spec(new[i].value@) matches Some(l) && l == lvl_target(
            xp_updated_value(old[i], new_xp as int),
            levels,
            cap,
            new_xp as int,
        ),
        parse_i32_spec(xp_updated_value(old[i], new_xp as int))->0 >= cap ==> parse_i32_spec(new[i].value@)
            == parse_i32_spec(xp_updated_value(old[i], new_xp as int)),
{
    let v1 = xp_updated_value(old[i], new_xp as int);
    let t = lvl_target(v1, levels, cap, new_xp as int);
    lemma_text_round_trip(t as i32);
}

/// A power-up token with a metadata extension adds exactly the `i32` value of its first
/// "XP Boost" trait to the boost gathered so far (the postcondition of `add_bone_boost`
/// read in terms of the token's traits).
pub proof fn law_bone_adds_its_xp_boost(acc: i32, d: NftDossier, r: i32, f: int, v: i32)
    requires
        boost_step_defined(acc, d),
        bone_boost(d) matches Some(b) && r == acc + b,
        d.public_metadata matches Some(m) && m.extension matches Some(e) && e.attributes is Some,
        is_first_of_type(d.public_metadata->0.extension->0.attributes->0@, xp_boost_name(), f),
        parse_i32_spec(d.public_metadata->0.extension->0.attributes->0@[f].value@) == Some(v),
    ensures
        r == acc + v,
{
    let attrs = d.public_metadata->0.extension->0.attributes->0@;
    let k = choose|k: int| is_first_of_type(attrs, xp_boost_name(), k);
    crate::metadata::lemma_first_of_type_unique(attrs, xp_boost_name(), f, k);
    assert(trait_value(attrs, xp_boost_name()) == Some(attrs[f].value@));
}

/// A power-up token without public metadata, or without a metadata extension, adds
/// nothing.
pub proof fn law_bone_without_extension_adds_nothing(acc: i32, d: NftDossier, r: i32)
    requires
        bone_boost(d) matches Some(b) && r == acc + b,
        d.public_metadata matches Some(m) ==> m.extension is None,
    ensures
        r == acc,
{
}

/// The wolf's new XP is the value of its first "XP" trait plus the boost.
pub proof fn law_new_xp_is_old_xp_plus_boost(
    attrs: Seq<Trait>,
    levels: Seq<Level>,
    cap: i32,
    boost: i32,
    u: WolfUpgrade,
)
    requires
        wolf_attrs_defined(attrs, levels, cap, boost),
        is_upgrade_of(u, attrs, levels, cap, boost),
    ensures
        exists|f: int|
            is_first_of_type(attrs, xp_name(), f) && (parse_i32_spec(#[trigger] attrs[f].value@) matches Some(
                x,
            ) && u.new_xp == x + boost),
{
    let f = choose|f: int| is_first_of_type(attrs, xp_name(), f);
    assert(is_first_of_type(attrs, xp_name(), f));
}

/// Below the level cap, a "LVL" trait becomes one less than the level of the first row of
/// the level table whose XP threshold is strictly above the new XP, whatever the old level.
pub proof fn law_level_from_table(
    attrs: Seq<Trait>,
    levels: Seq<Level>,
    cap: i32,
    boost: i32,
    u: WolfUpgrade,
    i: int,
)
    requires
        wolf_attrs_defined(attrs, levels, cap, boost),
        is_upgrade_of(u, attrs, levels, cap, boost),
        0 <= i < attrs.len(),
        has_type(attrs[i], lvl_name()),
        !has_type(attrs[i], xp_name()),
        parse_i32_spec(attrs[i].value@) matches Some(p) && p < cap,
    ensures
        exists|k: int|
            0 <= k < levels.len() && levels[k].xp_needed > u.new_xp && (forall|j: int|
                0 <= j < k ==> (#[trigger] levels[j]).xp_needed <= u.new_xp) && parse_i32_spec(
                u.attributes@[i].value@,
            ) == Some((#[trigger] levels[k].level - 1) as i32) && levels[k].level - 1 >= i32::MIN,
{
    let new_xp = u.new_xp as int;
    assert(xp_updated_value(attrs[i], new_xp) == attrs[i].value@);
    assert(lvl_target_defined(attrs[i].value@, levels, cap, new_xp));
    let k = choose|k: int| is_first_level_above(levels, new_xp, k);
    assert(is_first_level_above(levels, new_xp, k));
    let t = levels[k].level - 1;
    assert(lvl_target(attrs[i].value@, levels, cap, new_xp) == t);
    lemma_text_round_trip(t as i32);
    assert(u.attributes@[i].value@ == crate::decimal::int_text(t));
}

/// With a table sorted by XP threshold whose levels count up by one, a wolf below the
/// cap whose new XP is at least row `m`'s threshold and below row `m + 1`'s reaches
/// exactly row `m`'s level; in particular a new XP equal to a threshold reaches that
/// row's level.
pub proof fn law_level_of_sorted_table(
    attrs: Seq<Trait>,
    levels: Seq<Level>,
    cap: i32,
    boost: i32,
    u: WolfUpgrade,
    i: int,
    m: int,
)
    requires
        wolf_attrs_defined(attrs, levels, cap, boost),
        is_upgrade_of(u, attrs, levels, cap, boost),
        0 <= i < attrs.len(),
        has_type(attrs[i], lvl_name()),
        !has_type(attrs[i], xp_name()),
        parse_i32_spec(attrs[i].value@) matches Some(p) && p < cap,
        forall|a: int, b: int| 0 <= a < b < levels.len() ==> levels[a].xp_needed < levels[b].xp_needed,
        forall|a: int| 0 <= a < levels.len() - 1 ==> #[trigger] levels[a + 1].level == levels[a].level + 1,
        0 <= m < levels.len() - 1,
        levels[m].xp_needed <= u.new_xp < levels[m + 1].xp_needed,
    ensures
        parse_i32_spec(u.attributes@[i].value@) == Some(levels[m].level),
{
    law_level_from_table(attrs, levels, cap, boost, u, i);
    let k = choose|k: int|
        0 <= k < levels.len() && levels[k].xp_needed > u.new_xp && (forall|j: int|
            0 <= j < k ==> (#[trigger] levels[j]).xp_needed <= u.new_xp) && parse_i32_spec(
            u.attributes@[i].value@,
        ) == Some((#[trigger] levels[k].level - 1) as i32) && levels[k].level - 1 >= i32::MIN;
    if k <= m {
        assert(levels[k].xp_needed <= levels[m].xp_needed);
    } else if k > m + 1 {
        assert(levels[m + 1].xp_needed <= u.new_xp);
    }
    assert(k == m + 1);
    assert(levels[m + 1].level == levels[m].level + 1);
}

/// Two wolves that reach the same XP get the same level below the cap, whatever their
/// old levels and boosts.
pub proof fn law_level_depends_on_new_xp_only(
    attrs1: Seq<Trait>,
    boost1: i32,
    u1: WolfUpgrade,
    i1: int,
    attrs2: Seq<Trait>,
    boost2: i32,
    u2: WolfUpgrade,
    i2: int,
    levels: Seq<Level>,
    cap: i32,
)
    requires
        wolf_attrs_defined(attrs1, levels, cap, boost1),
        is_upgrade_of(u1, attrs1, levels, cap, boost1),
        0 <= i1 < attrs1.len(),
        has_type(attrs1[i1], lvl_name()),
        !has_type(attrs1[i1], xp_name()),
        parse_i32_spec(attrs1[i1].value@) matches Some(p) && p < cap,
        wolf_attrs_defined(attrs2, levels, cap, boost2),
        is_upgrade_of(u2, attrs2, levels, cap, boost2),
        0 <= i2 < attrs2.len(),
        has_type(attrs2[i2], lvl_name()),
        !has_type(attrs2[i2], xp_name()),
        parse_i32_spec(attrs2[i2].value@) matches Some(p) && p < cap,
        u1.new_xp == u2.new_xp,
    ensures
        parse_i32_spec(u1.attributes@[i1].value@) == parse_i32_spec(u2.attributes@[i2].value@),
{
    law_level_from_table(attrs1, levels, cap, boost1, u1, i1);
    law_level_from_table(attrs2, levels, cap, boost2, u2, i2);
    let k1 = choose|k: int|
        0 <= k < levels.len() && levels[k].xp_needed > u1.new_xp && (forall|j: int|
            0 <= j < k ==> (#[trigger] levels[j]).xp_needed <= u1.new_xp) && parse_i32_spec(
            u1.attributes@[i1].value@,
        ) == Some((#[trigger] levels[k].level - 1) as i32) && levels[k].level - 1 >= i32::MIN;
    let k2 = choose|k: int|
        0 <= k < levels.len() && levels[k].xp_needed > u2.new_xp && (forall|j: int|
            0 <= j < k ==> (#[trigger] levels[j]).xp_needed <= u2.new_xp) && parse_i32_spec(
            u2.attributes@[i2].value@,
        ) == Some((#[trigger] levels[k].level - 1) as i32) && levels[k].level - 1 >= i32::MIN;
    if k1 < k2 {
        assert(levels[k1].xp_needed <= u2.new_xp);
    } else if k2 < k1 {
        assert(levels[k2].xp_needed <= u1.new_xp);
    }
}

/// The new level of trait `j` of `attrs` when the wolf's XP becomes `new_xp`.
spec fn new_level(attrs: Seq<Trait>, j: int, levels: Seq<Level>, cap: i32, new_xp: int) -> int {
    lvl_target(xp_updated_value(attrs[j], new_xp), levels, cap, new_xp)
}

proof fn lemma_level_increases(
    attrs: Seq<Trait>,
    n: int,
    levels: Seq<Level>,
    cap: i32,
    new_xp: int,
    cur: int,
)
    requires
        0 <= n <= attrs.len(),
        forall|j: int|
            0 <= j < attrs.len() && has_type(#[trigger] attrs[j], lvl_name()) ==> lvl_target_defined(
                xp_updated_value(attrs[j], new_xp),
                levels,
                cap,
                new_xp,
            ),
    ensures
        forall|i: int|
            0 <= i < level_increases(attrs, n, levels, cap, new_xp, cur).len() ==> exists|j: int|
                0 <= j < n && has_type(attrs[j], lvl_name()) && #[trigger] new_level(attrs, j, levels, cap, new_xp)
                    == (#[trigger] level_increases(attrs, n, levels, cap, new_xp, cur)[i]) as int
                    && new_level(attrs, j, levels, cap, new_xp) > cur,
        forall|j: int|
            0 <= j < n && has_type(attrs[j], lvl_name()) && #[trigger] new_level(attrs, j, levels, cap, new_xp)
                > cur ==> exists|i: int|
                0 <= i < level_increases(attrs, n, levels, cap, new_xp, cur).len() && (
                #[trigger] level_increases(attrs, n, levels, cap, new_xp, cur)[i]) as int == new_level(
                    attrs,
                    j,
                    levels,
                    cap,
                    new_xp,
                ),
    decreases n,
{
    if n > 0 {
        lemma_level_increases(attrs, n - 1, levels, cap, new_xp, cur);
        let prev = level_increases(attrs, n - 1, levels, cap, new_xp, cur);
        let cur_seq = level_increases(attrs, n, levels, cap, new_xp, cur);
        let a = attrs[n - 1];
        let t = new_level(attrs, n - 1, levels, cap, new_xp);
        if has_type(a, lvl_name()) {
            assert(lvl_target_defined(xp_updated_value(a, new_xp), levels, cap, new_xp));
            assert(i32::MIN <= t <= i32::MAX);
        }
        assert forall|i: int| 0 <= i < cur_seq.len() implies exists|j: int|
            0 <= j < n && has_type(attrs[j], lvl_name()) && #[trigger] new_level(attrs, j, levels, cap, new_xp)
                == (#[trigger] cur_seq[i]) as int && new_level(attrs, j, levels, cap, new_xp) > cur by {
            if i < prev.len() {
                assert(cur_seq[i] == prev[i]);
            } else {
                assert(new_level(attrs, n - 1, levels, cap, new_xp) == cur_seq[i] as int);
            }
        }
        assert forall|j: int|
            0 <= j < n && has_type(attrs[j], lvl_name()) && #[trigger] new_level(attrs, j, levels, cap, new_xp)
                > cur implies exists|i: int|
                0 <= i < cur_seq.len() && (#[trigger] cur_seq[i]) as int == new_level(attrs, j, levels, cap, new_xp) by {
            if j < n - 1 {
                let i = choose|i: int|
                    0 <= i < prev.len() && (#[trigger] prev[i]) as int == new_level(attrs, j, levels, cap, new_xp);
                assert(cur_seq[i] == prev[i]);
            } else {
                assert(cur_seq[prev.len() as int] as int == t);
            }
        }
    }
}

/// Whether the response attributes `rep` of a power-up report the levels written into the
/// metadata update `new`: each "lvl_increase" carries the text of a "LVL" trait of the
/// update whose level rose above `cur`, every such trait is reported, and the boost comes
/// last as "xp_boost_amount".
pub open spec fn reports_match_update(rep: Seq<(String, String)>, new: Seq<Trait>, cur: int, boost: i32) -> bool {
    &&& rep.len() >= 1
    &&& rep[rep.len() - 1].0@ == "xp_boost_amount"@
    &&& parse_i32_spec(rep[rep.len() - 1].1@) == Some(boost)
    &&& forall|i: int|
        0 <= i < rep.len() - 1 ==> (#[trigger] rep[i]).0@ == "lvl_increase"@ && exists|j: int|
            0 <= j < new.len() && has_type(#[trigger] new[j], lvl_name()) && new[j].value@ == rep[i].1@
                && (parse_i32_spec(new[j].value@) matches Some(l) && l > cur)
    &&& forall|j: int|
        0 <= j < new.len() && has_type(#[trigger] new[j], lvl_name()) && (parse_i32_spec(new[j].value@) matches Some(
            l,
        ) && l > cur) ==> exists|i: int| 0 <= i < rep.len() - 1 && (#[trigger] rep[i]).1@ == new[j].value@
}

/// Every "lvl_increase" that a power-up reports is the new level written into the wolf's
/// "LVL" trait in the metadata update, each risen level is reported, and the boost
/// is reported last.
#[verifier::rlimit(40)]
pub proof fn law_level_reports_match_update(
    state: State,
    levels: Seq<Level>,
    wolf_token: Token,
    token_ids: Seq<String>,
    xp_boost: i32,
    wolf: NftDossier,
    contract_address: String,
    block_time: u64,
    r: Result<crate::contract::PowerUpOutcome, ContractError>,
)
    requires
        power_up_defined(state, levels, token_ids, xp_boost, wolf, contract_address),
        power_up_spec(state, levels, wolf_token, token_ids, xp_boost, wolf, contract_address, block_time, r),
        r is Ok,
    ensures
        r->Ok_0.messages@[1] matches OutMsg::SetMetadata { attributes, .. } && reports_match_update(
            r->Ok_0.attributes@,
            attributes@,
            trait_number(wolf.public_metadata->0.extension->0.attributes->0@, lvl_name())->0 as int,
            xp_boost,
        ),
{
    let o = r->Ok_0;
    let old = wolf.public_metadata->0.extension->0.attributes->0@;
    let cap = state.level_cap;
    let new_xp = trait_number(old, xp_name())->0 + xp_boost;
    let cur = trait_number(old, lvl_name())->0 as int;
    let incs = level_increases(old, old.len() as int, levels, cap, new_xp, cur);
    let new = o.messages@[1]->SetMetadata_attributes@;
    let rep = o.attributes@;
    lemma_level_increases(old, old.len() as int, levels, cap, new_xp, cur);
    lemma_text_round_trip(xp_boost);
    assert forall|i: int|
        0 <= i < rep.len() - 1 implies (#[trigger] rep[i]).0@ == "lvl_increase"@ && exists|j: int|
            0 <= j < new.len() && has_type(#[trigger] new[j], lvl_name()) && new[j].value@ == rep[i].1@
                && (parse_i32_spec(new[j].value@) matches Some(l) && l > cur) by {
        let j = choose|j: int|
            0 <= j < old.len() && has_type(old[j], lvl_name()) && #[trigger] new_level(old, j, levels, cap, new_xp)
                == incs[i] as int && new_level(old, j, levels, cap, new_xp) > cur;
        assert(new[j].value@ == upgraded_value(old[j], levels, cap, new_xp));
        assert(has_type(new[j], lvl_name()));
        lemma_text_round_trip(incs[i]);
    }
    assert forall|j: int|
        0 <= j < new.len() && has_type(#[trigger] new[j], lvl_name()) && (parse_i32_spec(new[j].value@) matches Some(
            l,
        ) && l > cur) implies exists|i: int| 0 <= i < rep.len() - 1 && (#[trigger] rep[i]).1@ == new[j].value@ by {
        assert(has_type(old[j], lvl_name()));
        let t = new_level(old, j, levels, cap, new_xp);
        assert(lvl_target_defined(xp_updated_value(old[j], new_xp), levels, cap, new_xp));
        assert(i32::MIN <= t <= i32::MAX);
        assert(new[j].value@ == int_text(t));
        lemma_text_round_trip(t as i32);
        let i = choose|i: int| 0 <= i < incs.len() && (#[trigger] incs[i]) as int == t;
        assert(rep[i].1@ == int_text(incs[i] as int));
    }
}

/// A finished power-up burns the tokens through the power-up contract, and updates the
/// wolf and sends it back to its owner through the wolf-pack contract.
pub proof fn law_wolf_returns_through_wolf_pack(
    state: State,
    levels: Seq<Level>,
    wolf_token: Token,
    token_ids: Seq<String>,
    xp_boost: i32,
    wolf: NftDossier,
    contract_address: String,
    block_time: u64,
    r: Result<crate::contract::PowerUpOutcome, ContractError>,
)
    requires
        power_up_spec(state, levels, wolf_token, token_ids, xp_boost, wolf, contract_address, block_time, r),
        r is Ok,
    ensures
        r->Ok_0.messages@.len() == 3,
        r->Ok_0.messages@[0] matches OutMsg::BatchBurnNft { token_ids: burned, contract } && burned@ == token_ids
            && contract == state.power_up_contract,
        r->Ok_0.messages@[1] matches OutMsg::SetMetadata { token_id, contract, .. } && token_id
            == wolf_token.token_id && contract == state.wolf_pack_contract,
        r->Ok_0.messages@[2] matches OutMsg::TransferNft { recipient, token_id, contract } && recipient
            == wolf_token.owner && token_id == wolf_token.token_id && contract == state.wolf_pack_contract,
{
}

/// A wolf parked by the wolf-pack contract and then powered up goes back to the address
/// it came from, through the contract it came from.
pub proof fn law_powered_up_wolf_goes_back_where_it_came_from(
    state: State,
    from: String,
    token_ids: Seq<String>,
    msg: Option<RelatedTokensMsg>,
    holding: Option<Token>,
    parked: Result<ReceiveOutcome, ContractError>,
    levels: Seq<Level>,
    bone_ids: Seq<String>,
    xp_boost: i32,
    wolf: NftDossier,
    contract_address: String,
    block_time: u64,
    r: Result<crate::contract::PowerUpOutcome, ContractError>,
)
    requires
        batch_receive_spec(state, state.wolf_pack_contract.address, from, token_ids, msg, holding, parked),
        parked matches Ok(ReceiveOutcome::HoldWolf { .. }),
        power_up_spec(
            state,
            levels,
            parked->Ok_0->token,
            bone_ids,
            xp_boost,
            wolf,
            contract_address,
            block_time,
            r,
        ),
        r is Ok,
    ensures
        r->Ok_0.messages@[2] matches OutMsg::TransferNft { recipient, token_id, contract } && recipient == from
            && token_id == token_ids[0] && contract.address == parked->Ok_0->token.sender
            && contract == state.wolf_pack_contract,
{
}

} // verus!
