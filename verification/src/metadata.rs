//! The part of an NFT's public metadata that a power-up reads: its traits.

use vstd::prelude::*;
use vstd::string::*;
use crate::decimal::{i32_to_text, int_text, parse_i32, parse_i32_spec};
use crate::msg::Level;

verus! {

/// One trait of an NFT.
#[derive(Clone, Debug)]
pub struct Trait {
    /// indicates how a trait should be displayed
    pub display_type: Option<String>,
    /// name of the trait
    pub trait_type: Option<String>,
    /// trait value
    pub value: String,
    /// optional max value for numerical traits
    pub max_value: Option<String>,
}

/// The on-chain metadata extension, as far as traits go.
#[derive(Clone, Debug)]
pub struct Extension {
    pub attributes: Option<Vec<Trait>>,
}

/// An NFT's metadata.
#[derive(Clone, Debug)]
pub struct Metadata {
    pub token_uri: Option<String>,
    pub extension: Option<Extension>,
}

/// What the NFT contract tells about one token.
#[derive(Clone, Debug)]
pub struct NftDossier {
    pub owner: Option<String>,
    pub public_metadata: Option<Metadata>,
}

/// The trait that a power-up token adds to a wolf's XP.
pub open spec fn xp_boost_name() -> Seq<char> {
    "XP Boost"@
}

/// The trait that holds a wolf's experience.
pub open spec fn xp_name() -> Seq<char> {
    "XP"@
}

/// The trait that holds a wolf's level.
pub open spec fn lvl_name() -> Seq<char> {
    "LVL"@
}

/// Whether trait `t` is named `name`.
pub open spec fn has_type(t: Trait, name: Seq<char>) -> bool {
    t.trait_type matches Some(n) && n@ == name
}

/// Whether `i` is the position of the first trait named `name`.
pub open spec fn is_first_of_type(attrs: Seq<Trait>, name: Seq<char>, i: int) -> bool {
    &&& 0 <= i < attrs.len()
    &&& has_type(attrs[i], name)
    &&& forall|j: int| 0 <= j < i ==> !has_type(#[trigger] attrs[j], name)
}

/// The value of the first trait named `name`, if there is one.
pub open spec fn trait_value(attrs: Seq<Trait>, name: Seq<char>) -> Option<Seq<char>> {
    if exists|i: int| is_first_of_type(attrs, name, i) {
        Some(attrs[choose|i: int| is_first_of_type(attrs, name, i)].value@)
    } else {
        None
    }
}

/// The value of the first trait named `name`, read as an `i32`; `None` where there is
/// no such trait or its value is no `i32`.
pub open spec fn trait_number(attrs: Seq<Trait>, name: Seq<char>) -> Option<i32> {
    match trait_value(attrs, name) {
        Some(v) => parse_i32_spec(v),
        None => None,
    }
}

/// There is only one first trait of a name.
pub proof fn lemma_first_of_type_unique(attrs: Seq<Trait>, name: Seq<char>, i: int, k: int)
    requires
        is_first_of_type(attrs, name, i),
        is_first_of_type(attrs, name, k),
    ensures
        i == k,
{
    if i < k {
        assert(!has_type(attrs[i], name));
    } else if k < i {
        assert(!has_type(attrs[k], name));
    }
}

/// Whether trait `t` is named `name`.
pub fn trait_is(t: &Trait, name: &String) -> (r: bool)
    ensures
        r == has_type(*t, name@),
{
    match &t.trait_type {
        Some(n) => *n == *name,
        None => false,
    }
}

/// The position of the first trait named `name`, as `iter().find(..)` meets it.
pub fn first_of_type(attrs: &Vec<Trait>, name: &String) -> (r: Option<usize>)
    ensures
        r matches Some(i) ==> is_first_of_type(attrs@, name@, i as int),
        r is None ==> forall|j: int| 0 <= j < attrs@.len() ==> !has_type(#[trigger] attrs@[j], name@),
        r matches Some(i) ==> trait_value(attrs@, name@) == Some(attrs@[i as int].value@),
        r is None ==> trait_value(attrs@, name@) is None,
{
    let mut i: usize = 0;
    while i < attrs.len()
        invariant
            i <= attrs@.len(),
            forall|j: int| 0 <= j < i ==> !has_type(#[trigger] attrs@[j], name@),
        decreases attrs@.len() - i,
    {
        if trait_is(&attrs[i], name) {
            proof {
                assert(is_first_of_type(attrs@, name@, i as int));
                let k = choose|k: int| is_first_of_type(attrs@, name@, k);
                lemma_first_of_type_unique(attrs@, name@, i as int, k);
            }
            return Some(i);
        }
        i = i + 1;
    }
    None
}

/// The value of the first trait named `name`, read as an `i32`.
pub fn read_trait_number(attrs: &Vec<Trait>, name: &String) -> (r: Option<i32>)
    ensures
        r == trait_number(attrs@, name@),
{
    match first_of_type(attrs, name) {
        Some(i) => parse_i32(&attrs[i].value),
        None => None,
    }
}

/// What one power-up token adds to the boost, where the contract goes on: a token
/// without public metadata or without an extension adds nothing; one with an
/// extension adds the value of its first "XP Boost" trait. `None` where the contract
/// gives up instead: no trait list, no such trait, or a value that is no `i32`.
pub open spec fn bone_boost(d: NftDossier) -> Option<int> {
    match d.public_metadata {
        None => Some(0),
        Some(m) => match m.extension {
            None => Some(0),
            Some(ext) => match ext.attributes {
                None => None,
                Some(attrs) => match trait_number(attrs@, xp_boost_name()) {
                    Some(v) => Some(v as int),
                    None => None,
                },
            },
        },
    }
}

/// Whether adding the boost of power-up token `d` to `acc` goes through: the token's
/// boost is readable and the sum fits an `i32`.
pub open spec fn boost_step_defined(acc: i32, d: NftDossier) -> bool {
    bone_boost(d) matches Some(v) && i32::MIN <= acc + v <= i32::MAX
}

fn bone_boost_exec(d: &NftDossier) -> (r: Option<i32>)
    ensures
        r matches Some(v) ==> bone_boost(*d) == Some(v as int),
        r is None ==> bone_boost(*d) is None,
{
    match &d.public_metadata {
        None => Some(0),
        Some(m) => match &m.extension {
            None => Some(0),
            Some(ext) => match &ext.attributes {
                None => None,
                Some(attrs) => {
                    let name = String::from_str("XP Boost");
                    read_trait_number(attrs, &name)
                },
            },
        },
    }
}

/// Whether the boost of power-up token `d` can be added to `acc`.
pub fn boost_step_is_defined(acc: i32, d: &NftDossier) -> (r: bool)
    ensures
        r == boost_step_defined(acc, *d),
{
    match bone_boost_exec(d) {
        Some(v) => {
            let s: i64 = acc as i64 + v as i64;
            -2147483648 <= s && s <= 2147483647
        },
        None => false,
    }
}

/// Adds the boost of power-up token `d` to the boost gathered so far.
pub fn add_bone_boost(acc: i32, d: &NftDossier) -> (r: i32)
    requires
        boost_step_defined(acc, *d),
    ensures
        bone_boost(*d) matches Some(v) && r == acc + v,
{
    let v = bone_boost_exec(d).unwrap();
    acc + v
}

/// Whether `i` is the first row of the level table whose XP threshold lies above `xp`.
pub open spec fn is_first_level_above(levels: Seq<Level>, xp: int, i: int) -> bool {
    &&& 0 <= i < levels.len()
    &&& levels[i].xp_needed > xp
    &&& forall|j: int| 0 <= j < i ==> (#[trigger] levels[j]).xp_needed <= xp
}

/// The first row of the level table whose XP threshold lies above `xp`, as
/// `iter().find(..)` meets it.
pub open spec fn first_level_above(levels: Seq<Level>, xp: int) -> Option<int> {
    if exists|i: int| is_first_level_above(levels, xp, i) {
        Some(choose|i: int| is_first_level_above(levels, xp, i))
    } else {
        None
    }
}

/// The position of the first row of `levels` whose threshold lies above `xp`.
pub fn find_level_above(levels: &Vec<Level>, xp: i32) -> (r: Option<usize>)
    ensures
        r matches Some(i) ==> first_level_above(levels@, xp as int) == Some(i as int),
        r is None ==> first_level_above(levels@, xp as int) is None,
{
    let mut i: usize = 0;
    while i < levels.len()
        invariant
            i <= levels@.len(),
            forall|j: int| 0 <= j < i ==> (#[trigger] levels@[j]).xp_needed <= xp,
        decreases levels@.len() - i,
    {
        if levels[i].xp_needed > xp {
            proof {
                assert(is_first_level_above(levels@, xp as int, i as int));
                let k = choose|k: int| is_first_level_above(levels@, xp as int, k);
                if k < i {
                    assert(levels@[k].xp_needed <= xp);
                } else if i < k {
                    assert(levels@[i as int].xp_needed <= xp);
                }
            }
            return Some(i);
        }
        i = i + 1;
    }
    None
}

/// A trait's value once a wolf's XP is `new_xp`: an "XP" trait shows the new XP.
pub open spec fn xp_updated_value(a: Trait, new_xp: int) -> Seq<char> {
    if has_type(a, xp_name()) {
        int_text(new_xp)
    } else {
        a.value@
    }
}

/// Whether a level trait's value `v` can be brought up to date: it is an `i32`, and if
/// it lies below the cap, some row of the table lies above the new XP, with a level
/// above `i32::MIN`.
pub open spec fn lvl_target_defined(v: Seq<char>, levels: Seq<Level>, cap: i32, new_xp: int) -> bool {
    &&& parse_i32_spec(v) is Some
    &&& parse_i32_spec(v)->0 < cap ==> (first_level_above(levels, new_xp) matches Some(k)
        && levels[k].level - 1 >= i32::MIN)
}

/// The level a level trait with value `v` gets: below the cap, one less than the level
/// of the first row whose threshold lies above the new XP; at or above it, unchanged.
pub open spec fn lvl_target(v: Seq<char>, levels: Seq<Level>, cap: i32, new_xp: int) -> int {
    let p = parse_i32_spec(v)->0;
    if p < cap {
        levels[first_level_above(levels, new_xp)->0].level - 1
    } else {
        p as int
    }
}

/// A trait's value after the power-up.
pub open spec fn upgraded_value(a: Trait, levels: Seq<Level>, cap: i32, new_xp: int) -> Seq<char> {
    let v1 = xp_updated_value(a, new_xp);
    if has_type(a, lvl_name()) {
        int_text(lvl_target(v1, levels, cap, new_xp))
    } else {
        v1
    }
}

/// The new levels that rise above `current_lvl`, among the first `n` traits, in order.
pub open spec fn level_increases(
    attrs: Seq<Trait>,
    n: int,
    levels: Seq<Level>,
    cap: i32,
    new_xp: int,
    current_lvl: int,
) -> Seq<i32>
    decreases n,
{
    if n <= 0 {
        seq![]
    } else {
        let prev = level_increases(attrs, n - 1, levels, cap, new_xp, current_lvl);
        let a = attrs[n - 1];
        let t = lvl_target(xp_updated_value(a, new_xp), levels, cap, new_xp);
        if has_type(a, lvl_name()) && t > current_lvl {
            prev.push(t as i32)
        } else {
            prev
        }
    }
}

/// Whether a wolf's traits can be brought up to date with a boost: the first "XP"
/// trait is an `i32` and the boost added to it fits one, the first "LVL" trait is an
/// `i32`, and every "LVL" trait can be updated.
pub open spec fn wolf_attrs_defined(attrs: Seq<Trait>, levels: Seq<Level>, cap: i32, boost: i32) -> bool {
    &&& trait_number(attrs, xp_name()) matches Some(x) && i32::MIN <= x + boost <= i32::MAX
    &&& trait_number(attrs, lvl_name()) is Some
    &&& forall|i: int|
        0 <= i < attrs.len() && has_type(#[trigger] attrs[i], lvl_name()) ==> lvl_target_defined(
            xp_updated_value(attrs[i], trait_number(attrs, xp_name())->0 + boost),
            levels,
            cap,
            trait_number(attrs, xp_name())->0 + boost,
        )
}

/// A wolf's traits after a power-up, with what changed.
#[derive(Clone, Debug)]
pub struct WolfUpgrade {
    /// the wolf's XP after the boost
    pub new_xp: i32,
    /// the wolf's level before it
    pub current_lvl: i32,
    /// the traits, in their order, with the new values
    pub attributes: Vec<Trait>,
    /// each new level that rose above the current one, in the order of the traits
    pub level_increases: Vec<i32>,
}

/// Whether `new` are traits `old` with each value brought up to date for XP `new_xp`,
/// all else kept.
pub open spec fn attributes_upgraded(new: Seq<Trait>, old: Seq<Trait>, levels: Seq<Level>, cap: i32, new_xp: int) -> bool {
    &&& new.len() == old.len()
    &&& forall|i: int| #![trigger new[i]] 0 <= i < old.len() ==> {
        &&& new[i].display_type == old[i].display_type
        &&& new[i].trait_type == old[i].trait_type
        &&& new[i].max_value == old[i].max_value
        &&& new[i].value@ == upgraded_value(old[i], levels, cap, new_xp)
    }
}

/// Whether `u` is what a boost of `boost` makes of traits `attrs`.
pub open spec fn is_upgrade_of(u: WolfUpgrade, attrs: Seq<Trait>, levels: Seq<Level>, cap: i32, boost: i32) -> bool {
    &&& u.new_xp == trait_number(attrs, xp_name())->0 + boost
    &&& u.current_lvl == trait_number(attrs, lvl_name())->0
    &&& attributes_upgraded(u.attributes@, attrs, levels, cap, u.new_xp as int)
    &&& u.level_increases@ == level_increases(attrs, attrs.len() as int, levels, cap, u.new_xp as int, u.current_lvl as int)
}

fn clone_opt_string(o: &Option<String>) -> (r: Option<String>)
    ensures
        r == *o,
{
    match o {
        Some(s) => Some(s.clone()),
        None => None,
    }
}

/// Brings a wolf's traits up to date with a boost; `None` exactly where
/// `wolf_attrs_defined` fails.
pub fn upgrade_attributes(attrs: &Vec<Trait>, levels: &Vec<Level>, cap: i32, boost: i32) -> (r: Option<WolfUpgrade>)
    ensures
        r is Some <==> wolf_attrs_defined(attrs@, levels@, cap, boost),
        r matches Some(u) ==> is_upgrade_of(u, attrs@, levels@, cap, boost),
{
    let xp_key = String::from_str("XP");
    let lvl_key = String::from_str("LVL");
    let cur_xp = match read_trait_number(attrs, &xp_key) {
        Some(x) => x,
        None => return None,
    };
    let sum: i64 = cur_xp as i64 + boost as i64;
    if sum < -2147483648 || sum > 2147483647 {
        return None;
    }
    let new_xp = sum as i32;
    let cur_lvl = match read_trait_number(attrs, &lvl_key) {
        Some(l) => l,
        None => return None,
    };
    let threshold = find_level_above(levels, new_xp);
    let mut out: Vec<Trait> = Vec::new();
    let mut inc: Vec<i32> = Vec::new();
    let mut i: usize = 0;
    while i < attrs.len()
        invariant
            i <= attrs@.len(),
            xp_key@ == xp_name(),
            lvl_key@ == lvl_name(),
            new_xp == trait_number(attrs@, xp_name())->0 + boost,
            trait_number(attrs@, xp_name()) is Some,
            cur_lvl == trait_number(attrs@, lvl_name())->0,
            threshold matches Some(k) ==> first_level_above(levels@, new_xp as int) == Some(k as int),
            threshold is None ==> first_level_above(levels@, new_xp as int) is None,
            out@.len() == i,
            forall|j: int| #![trigger out@[j]] 0 <= j < i ==> {
                &&& out@[j].display_type == attrs@[j].display_type
                &&& out@[j].trait_type == attrs@[j].trait_type
                &&& out@[j].max_value == attrs@[j].max_value
                &&& out@[j].value@ == upgraded_value(attrs@[j], levels@, cap, new_xp as int)
            },
            forall|j: int|
                0 <= j < i && has_type(#[trigger] attrs@[j], lvl_name()) ==> lvl_target_defined(
                    xp_updated_value(attrs@[j], new_xp as int),
                    levels@,
                    cap,
                    new_xp as int,
                ),
            inc@ == level_increases(attrs@, i as int, levels@, cap, new_xp as int, cur_lvl as int),
        decreases attrs@.len() - i,
    {
        let a = &attrs[i];
        let v1: String = if trait_is(a, &xp_key) {
            i32_to_text(new_xp)
        } else {
            a.value.clone()
        };
        assert(v1@ == xp_updated_value(attrs@[i as int], new_xp as int));
        let mut v = v1.clone();
        if trait_is(a, &lvl_key) {
            let p = match parse_i32(&v1) {
                Some(p) => p,
                None => return None,
            };
            let target: i32 = if p < cap {
                match threshold {
                    Some(k) => {
                        let lv = levels[k].level;
                        if lv == -2147483648 {
                            return None;
                        }
                        lv - 1
                    },
                    None => return None,
                }
            } else {
                p
            };
            assert(target == lvl_target(v1@, levels@, cap, new_xp as int));
            v = i32_to_text(target);
            if target > cur_lvl {
                inc.push(target);
            }
        }
        let t = Trait {
            display_type: clone_opt_string(&a.display_type),
            trait_type: clone_opt_string(&a.trait_type),
            value: v,
            max_value: clone_opt_string(&a.max_value),
        };
        out.push(t);
        i = i + 1;
    }
    assert(wolf_attrs_defined(attrs@, levels@, cap, boost));
    Some(WolfUpgrade { new_xp, current_lvl: cur_lvl, attributes: out, level_increases: inc })
}

} // verus!
