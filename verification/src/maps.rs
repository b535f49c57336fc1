//! Fixed vocabularies: the buttons that can be asked for by name, and the
//! kind of each property name the decoder knows.

use crate::collect_data::PropType;
use crate::text::str_eq;
use vstd::prelude::*;

verus! {

/// Number of button names.
pub const BUTTON_COUNT: usize = 12;

/// The button names, in the order in which their identifiers are handed out.
pub open spec fn button_names() -> Seq<Seq<char>> {
    seq![
        "W"@,
        "A"@,
        "S"@,
        "D"@,
        "FIRE"@,
        "RIGHTCLICK"@,
        "RELOAD"@,
        "INSPECT"@,
        "USE"@,
        "ZOOM"@,
        "SCOREBOARD"@,
        "WALK"@,
    ]
}

/// The `i`-th button name.
pub fn button_name(i: usize) -> (name: &'static str)
    requires
        i < BUTTON_COUNT,
    ensures
        name@ == button_names()[i as int],
{
    if i == 0 {
        "W"
    } else if i == 1 {
        "A"
    } else if i == 2 {
        "S"
    } else if i == 3 {
        "D"
    } else if i == 4 {
        "FIRE"
    } else if i == 5 {
        "RIGHTCLICK"
    } else if i == 6 {
        "RELOAD"
    } else if i == 7 {
        "INSPECT"
    } else if i == 8 {
        "USE"
    } else if i == 9 {
        "ZOOM"
    } else if i == 10 {
        "SCOREBOARD"
    } else {
        "WALK"
    }
}

/// Names of the fields of a team entity.
pub open spec fn is_team_field(name: Seq<char>) -> bool {
    ||| name == "CCSTeam.m_iTeamNum"@
    ||| name == "CCSTeam.m_iScore"@
    ||| name == "CCSTeam.m_szTeamname"@
    ||| name == "CCSTeam.m_szClanTeamname"@
}

/// Names of the fields of the game rules.
pub open spec fn is_rules_field(name: Seq<char>) -> bool {
    ||| name == "CCSGameRulesProxy.CCSGameRules.m_bFreezePeriod"@
    ||| name == "CCSGameRulesProxy.CCSGameRules.m_bWarmupPeriod"@
    ||| name == "CCSGameRulesProxy.CCSGameRules.m_totalRoundsPlayed"@
    ||| name == "CCSGameRulesProxy.CCSGameRules.m_gamePhase"@
    ||| name == "CCSGameRulesProxy.CCSGameRules.m_bBombPlanted"@
    ||| name == "CCSGameRulesProxy.CCSGameRules.m_bBombDropped"@
}

/// Names of the fields of a player controller.
pub open spec fn is_controller_field(name: Seq<char>) -> bool {
    ||| name == "CCSPlayerController.m_iTeamNum"@
    ||| name == "CCSPlayerController.m_iszPlayerName"@
    ||| name == "CCSPlayerController.m_steamID"@
    ||| name == "CCSPlayerController.m_hPlayerPawn"@
    ||| name == "CCSPlayerController.m_bPawnIsAlive"@
    ||| name == "CCSPlayerController.m_iPing"@
    ||| name == "CCSPlayerController.m_iScore"@
    ||| name == "CCSPlayerController.m_iMVPs"@
    ||| name == "CCSPlayerController.m_iPawnHealth"@
    ||| name == "CCSPlayerController.m_iPawnArmor"@
    ||| name == "CCSPlayerController.m_bPawnHasDefuser"@
    ||| name == "CCSPlayerController.m_bPawnHasHelmet"@
}

/// Names of the fields of a player pawn.
pub open spec fn is_player_field(name: Seq<char>) -> bool {
    ||| name == "CCSPlayerPawn.m_iHealth"@
    ||| name == "CCSPlayerPawn.m_ArmorValue"@
    ||| name == "CCSPlayerPawn.m_iTeamNum"@
    ||| name == "CCSPlayerPawn.m_lifeState"@
    ||| name == "CCSPlayerPawn.m_angEyeAngles"@
    ||| name == "CCSPlayerPawn.m_bIsScoped"@
    ||| name == "CCSPlayerPawn.m_bIsWalking"@
    ||| name == "CCSPlayerPawn.m_bIsDefusing"@
    ||| name == "CCSPlayerPawn.m_bInBuyZone"@
    ||| name == "CCSPlayerPawn.m_flFlashDuration"@
}

/// Names of the fields of a weapon, without the weapon's own type name.
pub open spec fn is_weapon_field(name: Seq<char>) -> bool {
    ||| name == "m_iClip1"@
    ||| name == "m_iClip2"@
    ||| name == "m_pReserveAmmo"@
    ||| name == "m_fAccuracyPenalty"@
    ||| name == "m_iRecoilIndex"@
    ||| name == "m_flRecoilIndex"@
    ||| name == "m_bInReload"@
    ||| name == "m_zoomLevel"@
    ||| name == "m_iBurstShotsRemaining"@
    ||| name == "m_nFallbackPaintKit"@
    ||| name == "m_nFallbackSeed"@
    ||| name == "m_flFallbackWear"@
    ||| name == "m_nFallbackStatTrak"@
}

/// The kind of the property called `name`, if the name is a known one.
pub open spec fn prop_type_of(name: Seq<char>) -> Option<PropType> {
    if is_team_field(name) {
        Some(PropType::Team)
    } else if is_rules_field(name) {
        Some(PropType::Rules)
    } else if is_controller_field(name) {
        Some(PropType::Controller)
    } else if is_player_field(name) {
        Some(PropType::Player)
    } else if is_weapon_field(name) {
        Some(PropType::Weapon)
    } else {
        None
    }
}

fn team_field(name: &str) -> (r: bool)
    ensures
        r == is_team_field(name@),
{
    str_eq(name, "CCSTeam.m_iTeamNum") || str_eq(name, "CCSTeam.m_iScore") || str_eq(
        name,
        "CCSTeam.m_szTeamname",
    ) || str_eq(name, "CCSTeam.m_szClanTeamname")
}

fn rules_field(name: &str) -> (r: bool)
    ensures
        r == is_rules_field(name@),
{
    str_eq(name, "CCSGameRulesProxy.CCSGameRules.m_bFreezePeriod") || str_eq(
        name,
        "CCSGameRulesProxy.CCSGameRules.m_bWarmupPeriod",
    ) || str_eq(name, "CCSGameRulesProxy.CCSGameRules.m_totalRoundsPlayed") || str_eq(
        name,
        "CCSGameRulesProxy.CCSGameRules.m_gamePhase",
    ) || str_eq(name, "CCSGameRulesProxy.CCSGameRules.m_bBombPlanted") || str_eq(
        name,
        "CCSGameRulesProxy.CCSGameRules.m_bBombDropped",
    )
}

fn controller_field(name: &str) -> (r: bool)
    ensures
        r == is_controller_field(name@),
{
    str_eq(name, "CCSPlayerController.m_iTeamNum") || str_eq(
        name,
        "CCSPlayerController.m_iszPlayerName",
    ) || str_eq(name, "CCSPlayerController.m_steamID") || str_eq(
        name,
        "CCSPlayerController.m_hPlayerPawn",
    ) || str_eq(name, "CCSPlayerController.m_bPawnIsAlive") || str_eq(
        name,
        "CCSPlayerController.m_iPing",
    ) || str_eq(name, "CCSPlayerController.m_iScore") || str_eq(
        name,
        "CCSPlayerController.m_iMVPs",
    ) || str_eq(name, "CCSPlayerController.m_iPawnHealth") || str_eq(
        name,
        "CCSPlayerController.m_iPawnArmor",
    ) || str_eq(name, "CCSPlayerController.m_bPawnHasDefuser") || str_eq(
        name,
        "CCSPlayerController.m_bPawnHasHelmet",
    )
}

fn player_field(name: &str) -> (r: bool)
    ensures
        r == is_player_field(name@),
{
    str_eq(name, "CCSPlayerPawn.m_iHealth") || str_eq(name, "CCSPlayerPawn.m_ArmorValue")
        || str_eq(name, "CCSPlayerPawn.m_iTeamNum") || str_eq(name, "CCSPlayerPawn.m_lifeState")
        || str_eq(name, "CCSPlayerPawn.m_angEyeAngles") || str_eq(
        name,
        "CCSPlayerPawn.m_bIsScoped",
    ) || str_eq(name, "CCSPlayerPawn.m_bIsWalking") || str_eq(name, "CCSPlayerPawn.m_bIsDefusing")
        || str_eq(name, "CCSPlayerPawn.m_bInBuyZone") || str_eq(
        name,
        "CCSPlayerPawn.m_flFlashDuration",
    )
}

fn weapon_field(name: &str) -> (r: bool)
    ensures
        r == is_weapon_field(name@),
{
    str_eq(name, "m_iClip1") || str_eq(name, "m_iClip2") || str_eq(name, "m_pReserveAmmo")
        || str_eq(name, "m_fAccuracyPenalty") || str_eq(name, "m_iRecoilIndex") || str_eq(
        name,
        "m_flRecoilIndex",
    ) || str_eq(name, "m_bInReload") || str_eq(name, "m_zoomLevel") || str_eq(
        name,
        "m_iBurstShotsRemaining",
    ) || str_eq(name, "m_nFallbackPaintKit") || str_eq(name, "m_nFallbackSeed") || str_eq(
        name,
        "m_flFallbackWear",
    ) || str_eq(name, "m_nFallbackStatTrak")
}

/// Looks `name` up among the known property names.
pub fn prop_type(name: &str) -> (r: Option<PropType>)
    ensures
        r == prop_type_of(name@),
{
    if team_field(name) {
        Some(PropType::Team)
    } else if rules_field(name) {
        Some(PropType::Rules)
    } else if controller_field(name) {
        Some(PropType::Controller)
    } else if player_field(name) {
        Some(PropType::Player)
    } else if weapon_field(name) {
        Some(PropType::Weapon)
    } else {
        None
    }
}

} // verus!
