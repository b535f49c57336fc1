//! Which leaves have to be decoded.
//!
//! A leaf that the user asked for is decoded. So are the leaves that other
//! output is computed from, and those that tie a player's controller, pawn,
//! team and weapons together. The rules are fixed; nothing is derived from
//! the shape of the tree.

use crate::collect_data::PropType;
use crate::maps::{prop_type, prop_type_of};
use crate::text::{chars_have_token, chars_of, has_token, names_contain, names_view, str_eq};
use vstd::prelude::*;

verus! {

/// One of the world coordinates was asked for.
pub open spec fn wants_position(wanted: Seq<Seq<char>>) -> bool {
    wanted.contains("X"@) || wanted.contains("Y"@) || wanted.contains("Z"@)
}

/// The name is that of a cell index or of an offset within a cell; the world
/// coordinates are computed from these.
pub open spec fn is_position_part(name: Seq<char>) -> bool {
    has_token(name, "cell"@) || has_token(name, "m_vec"@)
}

/// The fields that are decoded whatever was asked for.
pub open spec fn is_always_parsed(name: Seq<char>) -> bool {
    ||| name == "m_nOwnerId"@
    ||| name == "m_iItemDefinitionIndex"@
    ||| name == "CCSPlayerPawn.CCSPlayer_MovementServices.m_nButtonDownMaskPrev"@
    ||| name == "CCSPlayerPawn.CCSPlayer_WeaponServices.m_hActiveWeapon"@
    ||| name == "CCSPlayerPawn.m_iTeamNum"@
    ||| name == "CBasePlayerWeapon.m_nOwnerId"@
}

/// The name mentions one of the fields by which controllers, pawns, teams
/// and weapons are told apart and matched up.
pub open spec fn is_identity_link(name: Seq<char>) -> bool {
    ||| has_token(name, "CCSTeam.m_iTeamNum"@)
    ||| has_token(name, "CCSPlayerPawn.m_iTeamNum"@)
    ||| has_token(name, "CCSPlayerController.m_iTeamNum"@)
    ||| has_token(name, "CCSPlayerController.m_iszPlayerName"@)
    ||| has_token(name, "CCSPlayerController.m_steamID"@)
    ||| has_token(name, "CCSPlayerController.m_hPlayerPawn"@)
    ||| has_token(name, "CCSPlayerController.m_bPawnIsAlive"@)
    ||| has_token(name, "m_hActiveWeapon"@)
}

/// Whether the leaf with canonical name `name` has to be decoded when the
/// user asked for the names in `wanted`.
///
/// Asking for `yaw` makes every leaf decoded. Asking for `pitch` does so
/// for the eye angles alone.
pub open spec fn must_parse(wanted: Seq<Seq<char>>, name: Seq<char>) -> bool {
    ||| wants_position(wanted) && is_position_part(name)
    ||| wanted.contains("yaw"@)
    ||| wanted.contains("pitch"@) && name == "CCSPlayerPawn.m_angEyeAngles"@
    ||| is_always_parsed(name)
    ||| prop_type_of(name) == Some(PropType::Weapon)
    ||| is_identity_link(name)
    ||| wanted.contains(name)
}

fn always_parsed(name: &str) -> (r: bool)
    ensures
        r == is_always_parsed(name@),
{
    str_eq(name, "m_nOwnerId") || str_eq(name, "m_iItemDefinitionIndex") || str_eq(
        name,
        "CCSPlayerPawn.CCSPlayer_MovementServices.m_nButtonDownMaskPrev",
    ) || str_eq(name, "CCSPlayerPawn.CCSPlayer_WeaponServices.m_hActiveWeapon") || str_eq(
        name,
        "CCSPlayerPawn.m_iTeamNum",
    ) || str_eq(name, "CBasePlayerWeapon.m_nOwnerId")
}

fn identity_link(chars: &Vec<char>) -> (r: bool)
    ensures
        r == is_identity_link(chars@),
{
    let n = chars.len();
    assert(chars@.take(n as int) =~= chars@);
    chars_have_token(chars, n, "CCSTeam.m_iTeamNum") || chars_have_token(
        chars,
        n,
        "CCSPlayerPawn.m_iTeamNum",
    ) || chars_have_token(chars, n, "CCSPlayerController.m_iTeamNum") || chars_have_token(
        chars,
        n,
        "CCSPlayerController.m_iszPlayerName",
    ) || chars_have_token(chars, n, "CCSPlayerController.m_steamID") || chars_have_token(
        chars,
        n,
        "CCSPlayerController.m_hPlayerPawn",
    ) || chars_have_token(chars, n, "CCSPlayerController.m_bPawnIsAlive") || chars_have_token(
        chars,
        n,
        "m_hActiveWeapon",
    )
}

fn position_part(chars: &Vec<char>) -> (r: bool)
    ensures
        r == is_position_part(chars@),
{
    let n = chars.len();
    assert(chars@.take(n as int) =~= chars@);
    chars_have_token(chars, n, "cell") || chars_have_token(chars, n, "m_vec")
}

fn position_wanted(wanted: &Vec<String>) -> (r: bool)
    ensures
        r == wants_position(names_view(wanted@)),
{
    names_contain(wanted, "X") || names_contain(wanted, "Y") || names_contain(wanted, "Z")
}

/// Decides whether the leaf with canonical name `name` has to be decoded.
pub fn should_parse_name(wanted: &Vec<String>, name: &str) -> (r: bool)
    ensures
        r == must_parse(names_view(wanted@), name@),
{
    let chars = chars_of(name);
    if position_wanted(wanted) && position_part(&chars) {
        return true;
    }
    if names_contain(wanted, "yaw") || (names_contain(wanted, "pitch") && str_eq(
        name,
        "CCSPlayerPawn.m_angEyeAngles",
    )) {
        return true;
    }
    if always_parsed(name) {
        return true;
    }
    match prop_type(name) {
        Some(PropType::Weapon) => {
            return true;
        },
        _ => {},
    }
    if identity_link(&chars) {
        return true;
    }
    names_contain(wanted, name)
}

} // verus!
