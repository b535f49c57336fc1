//! Identifiers of the fields that the decoder reads on every pass.
//!
//! Each of these fields has a cell of its own, so that the decoder finds its
//! identifier by reading a struct field instead of looking a name up. A cell
//! is filled the first time its field is met and is never written again.

use crate::text::str_eq;
use vstd::prelude::*;

verus! {

/// One cell per pinned field; `None` until the field has been met.
#[derive(Debug, Clone, Copy)]
pub struct SpecialIDs {
    pub grenade_owner_id: Option<u32>,
    pub m_vec_x_grenade: Option<u32>,
    pub m_vec_y_grenade: Option<u32>,
    pub m_vec_z_grenade: Option<u32>,
    pub m_cell_x_grenade: Option<u32>,
    pub m_cell_y_grenade: Option<u32>,
    pub m_cell_z_grenade: Option<u32>,
    pub item_def: Option<u32>,
    pub buttons: Option<u32>,
    pub active_weapon: Option<u32>,
    pub team_team_num: Option<u32>,
    pub player_team_pointer: Option<u32>,
    pub weapon_owner_pointer: Option<u32>,
    pub teamnum: Option<u32>,
    pub player_name: Option<u32>,
    pub steamid: Option<u32>,
    pub player_pawn: Option<u32>,
    pub cell_x_player: Option<u32>,
    pub cell_y_player: Option<u32>,
    pub cell_z_player: Option<u32>,
    pub cell_x_offset_player: Option<u32>,
    pub cell_y_offset_player: Option<u32>,
    pub cell_z_offset_player: Option<u32>,
    pub eye_angles: Option<u32>,
}

/// Names the cells of `SpecialIDs`.
#[derive(Debug, Clone, Copy, PartialEq, Eq, Structural)]
pub enum Slot {
    GrenadeOwnerId,
    MVecXGrenade,
    MVecYGrenade,
    MVecZGrenade,
    MCellXGrenade,
    MCellYGrenade,
    MCellZGrenade,
    ItemDef,
    Buttons,
    ActiveWeapon,
    TeamTeamNum,
    PlayerTeamPointer,
    WeaponOwnerPointer,
    Teamnum,
    PlayerName,
    Steamid,
    PlayerPawn,
    CellXPlayer,
    CellYPlayer,
    CellZPlayer,
    CellXOffsetPlayer,
    CellYOffsetPlayer,
    CellZOffsetPlayer,
    EyeAngles,
}

/// The cell that a field of a weapon or grenade fills, by the field's
/// canonical name.
pub open spec fn weapon_slot(name: Seq<char>) -> Option<Slot> {
    if name == "m_nOwnerId"@ {
        Some(Slot::GrenadeOwnerId)
    } else if name == "CBodyComponentBaseAnimGraph.m_vecX"@ {
        Some(Slot::MVecXGrenade)
    } else if name == "CBodyComponentBaseAnimGraph.m_vecY"@ {
        Some(Slot::MVecYGrenade)
    } else if name == "CBodyComponentBaseAnimGraph.m_vecZ"@ {
        Some(Slot::MVecZGrenade)
    } else if name == "CBodyComponentBaseAnimGraph.m_cellX"@ {
        Some(Slot::MCellXGrenade)
    } else if name == "CBodyComponentBaseAnimGraph.m_cellY"@ {
        Some(Slot::MCellYGrenade)
    } else if name == "CBodyComponentBaseAnimGraph.m_cellZ"@ {
        Some(Slot::MCellZGrenade)
    } else if name == "m_iItemDefinitionIndex"@ {
        Some(Slot::ItemDef)
    } else if name == "CCSPlayerPawn.CCSPlayer_MovementServices.m_nButtonDownMaskPrev"@ {
        Some(Slot::Buttons)
    } else if name == "CCSPlayerPawn.CCSPlayer_WeaponServices.m_hActiveWeapon"@ {
        Some(Slot::ActiveWeapon)
    } else {
        None
    }
}

/// The cell that a field of anything but a weapon or grenade fills, by the
/// field's canonical name.
pub open spec fn plain_slot(name: Seq<char>) -> Option<Slot> {
    if name == "CCSTeam.m_iTeamNum"@ {
        Some(Slot::TeamTeamNum)
    } else if name == "CCSPlayerPawn.m_iTeamNum"@ {
        Some(Slot::PlayerTeamPointer)
    } else if name == "CBasePlayerWeapon.m_nOwnerId"@ {
        Some(Slot::WeaponOwnerPointer)
    } else if name == "CCSPlayerController.m_iTeamNum"@ {
        Some(Slot::Teamnum)
    } else if name == "CCSPlayerController.m_iszPlayerName"@ {
        Some(Slot::PlayerName)
    } else if name == "CCSPlayerController.m_steamID"@ {
        Some(Slot::Steamid)
    } else if name == "CCSPlayerController.m_hPlayerPawn"@ {
        Some(Slot::PlayerPawn)
    } else if name == "CCSPlayerPawn.CBodyComponentBaseAnimGraph.m_cellX"@ {
        Some(Slot::CellXPlayer)
    } else if name == "CCSPlayerPawn.CCSPlayer_MovementServices.m_nButtonDownMaskPrev"@ {
        Some(Slot::Buttons)
    } else if name == "CCSPlayerPawn.CBodyComponentBaseAnimGraph.m_vecX"@ {
        Some(Slot::CellXOffsetPlayer)
    } else if name == "CCSPlayerPawn.CBodyComponentBaseAnimGraph.m_cellY"@ {
        Some(Slot::CellYPlayer)
    } else if name == "CCSPlayerPawn.m_angEyeAngles"@ {
        Some(Slot::EyeAngles)
    } else if name == "CCSPlayerPawn.CBodyComponentBaseAnimGraph.m_vecY"@ {
        Some(Slot::CellYOffsetPlayer)
    } else if name == "CCSPlayerPawn.CBodyComponentBaseAnimGraph.m_cellZ"@ {
        Some(Slot::CellZPlayer)
    } else if name == "CCSPlayerPawn.CBodyComponentBaseAnimGraph.m_vecZ"@ {
        Some(Slot::CellZOffsetPlayer)
    } else if name == "CCSPlayerPawn.CCSPlayer_WeaponServices.m_hActiveWeapon"@ {
        Some(Slot::ActiveWeapon)
    } else {
        None
    }
}

/// The cell, if any, of the field with canonical name `name`. Which table
/// is asked depends on whether the field belongs to a weapon or grenade.
pub open spec fn slot_of(name: Seq<char>, is_grenade_or_weapon: bool) -> Option<Slot> {
    if is_grenade_or_weapon {
        weapon_slot(name)
    } else {
        plain_slot(name)
    }
}

fn find_weapon_slot(name: &str) -> (r: Option<Slot>)
    ensures
        r == weapon_slot(name@),
{
    if str_eq(name, "m_nOwnerId") {
        Some(Slot::GrenadeOwnerId)
    } else if str_eq(name, "CBodyComponentBaseAnimGraph.m_vecX") {
        Some(Slot::MVecXGrenade)
    } else if str_eq(name, "CBodyComponentBaseAnimGraph.m_vecY") {
        Some(Slot::MVecYGrenade)
    } else if str_eq(name, "CBodyComponentBaseAnimGraph.m_vecZ") {
        Some(Slot::MVecZGrenade)
    } else if str_eq(name, "CBodyComponentBaseAnimGraph.m_cellX") {
        Some(Slot::MCellXGrenade)
    } else if str_eq(name, "CBodyComponentBaseAnimGraph.m_cellY") {
        Some(Slot::MCellYGrenade)
    } else if str_eq(name, "CBodyComponentBaseAnimGraph.m_cellZ") {
        Some(Slot::MCellZGrenade)
    } else if str_eq(name, "m_iItemDefinitionIndex") {
        Some(Slot::ItemDef)
    } else if str_eq(name, "CCSPlayerPawn.CCSPlayer_MovementServices.m_nButtonDownMaskPrev") {
        Some(Slot::Buttons)
    } else if str_eq(name, "CCSPlayerPawn.CCSPlayer_WeaponServices.m_hActiveWeapon") {
        Some(Slot::ActiveWeapon)
    } else {
        None
    }
}

fn find_plain_slot(name: &str) -> (r: Option<Slot>)
    ensures
        r == plain_slot(name@),
{
    if str_eq(name, "CCSTeam.m_iTeamNum") {
        Some(Slot::TeamTeamNum)
    } else if str_eq(name, "CCSPlayerPawn.m_iTeamNum") {
        Some(Slot::PlayerTeamPointer)
    } else if str_eq(name, "CBasePlayerWeapon.m_nOwnerId") {
        Some(Slot::WeaponOwnerPointer)
    } else if str_eq(name, "CCSPlayerController.m_iTeamNum") {
        Some(Slot::Teamnum)
    } else if str_eq(name, "CCSPlayerController.m_iszPlayerName") {
        Some(Slot::PlayerName)
    } else if str_eq(name, "CCSPlayerController.m_steamID") {
        Some(Slot::Steamid)
    } else if str_eq(name, "CCSPlayerController.m_hPlayerPawn") {
        Some(Slot::PlayerPawn)
    } else if str_eq(name, "CCSPlayerPawn.CBodyComponentBaseAnimGraph.m_cellX") {
        Some(Slot::CellXPlayer)
    } else if str_eq(name, "CCSPlayerPawn.CCSPlayer_MovementServices.m_nButtonDownMaskPrev") {
        Some(Slot::Buttons)
    } else if str_eq(name, "CCSPlayerPawn.CBodyComponentBaseAnimGraph.m_vecX") {
        Some(Slot::CellXOffsetPlayer)
    } else if str_eq(name, "CCSPlayerPawn.CBodyComponentBaseAnimGraph.m_cellY") {
        Some(Slot::CellYPlayer)
    } else if str_eq(name, "CCSPlayerPawn.m_angEyeAngles") {
        Some(Slot::EyeAngles)
    } else if str_eq(name, "CCSPlayerPawn.CBodyComponentBaseAnimGraph.m_vecY") {
        Some(Slot::CellYOffsetPlayer)
    } else if str_eq(name, "CCSPlayerPawn.CBodyComponentBaseAnimGraph.m_cellZ") {
        Some(Slot::CellZPlayer)
    } else if str_eq(name, "CCSPlayerPawn.CBodyComponentBaseAnimGraph.m_vecZ") {
        Some(Slot::CellZOffsetPlayer)
    } else if str_eq(name, "CCSPlayerPawn.CCSPlayer_WeaponServices.m_hActiveWeapon") {
        Some(Slot::ActiveWeapon)
    } else {
        None
    }
}

/// Looks up the cell of the field with canonical name `name`.
pub fn find_slot(name: &str, is_grenade_or_weapon: bool) -> (r: Option<Slot>)
    ensures
        r == slot_of(name@, is_grenade_or_weapon),
{
    if is_grenade_or_weapon {
        find_weapon_slot(name)
    } else {
        find_plain_slot(name)
    }
}

impl SpecialIDs {
    /// The registry with every cell empty.
    pub open spec fn empty() -> SpecialIDs {
        SpecialIDs {
            grenade_owner_id: None,
            m_vec_x_grenade: None,
            m_vec_y_grenade: None,
            m_vec_z_grenade: None,
            m_cell_x_grenade: None,
            m_cell_y_grenade: None,
            m_cell_z_grenade: None,
            item_def: None,
            buttons: None,
            active_weapon: None,
            team_team_num: None,
            player_team_pointer: None,
            weapon_owner_pointer: None,
            teamnum: None,
            player_name: None,
            steamid: None,
            player_pawn: None,
            cell_x_player: None,
            cell_y_player: None,
            cell_z_player: None,
            cell_x_offset_player: None,
            cell_y_offset_player: None,
            cell_z_offset_player: None,
            eye_angles: None,
        }
    }

    /// What the cell `slot` holds.
    pub open spec fn cell(self, slot: Slot) -> Option<u32> {
        match slot {
            Slot::GrenadeOwnerId => self.grenade_owner_id,
            Slot::MVecXGrenade => self.m_vec_x_grenade,
            Slot::MVecYGrenade => self.m_vec_y_grenade,
            Slot::MVecZGrenade => self.m_vec_z_grenade,
            Slot::MCellXGrenade => self.m_cell_x_grenade,
            Slot::MCellYGrenade => self.m_cell_y_grenade,
            Slot::MCellZGrenade => self.m_cell_z_grenade,
            Slot::ItemDef => self.item_def,
            Slot::Buttons => self.buttons,
            Slot::ActiveWeapon => self.active_weapon,
            Slot::TeamTeamNum => self.team_team_num,
            Slot::PlayerTeamPointer => self.player_team_pointer,
            Slot::WeaponOwnerPointer => self.weapon_owner_pointer,
            Slot::Teamnum => self.teamnum,
            Slot::PlayerName => self.player_name,
            Slot::Steamid => self.steamid,
            Slot::PlayerPawn => self.player_pawn,
            Slot::CellXPlayer => self.cell_x_player,
            Slot::CellYPlayer => self.cell_y_player,
            Slot::CellZPlayer => self.cell_z_player,
            Slot::CellXOffsetPlayer => self.cell_x_offset_player,
            Slot::CellYOffsetPlayer => self.cell_y_offset_player,
            Slot::CellZOffsetPlayer => self.cell_z_offset_player,
            Slot::EyeAngles => self.eye_angles,
        }
    }

    /// The registry with `id` in the cell `slot` and every other cell as it is.
    pub open spec fn with_cell(self, slot: Slot, id: u32) -> SpecialIDs {
        match slot {
            Slot::GrenadeOwnerId => SpecialIDs { grenade_owner_id: Some(id), ..self },
            Slot::MVecXGrenade => SpecialIDs { m_vec_x_grenade: Some(id), ..self },
            Slot::MVecYGrenade => SpecialIDs { m_vec_y_grenade: Some(id), ..self },
            Slot::MVecZGrenade => SpecialIDs { m_vec_z_grenade: Some(id), ..self },
            Slot::MCellXGrenade => SpecialIDs { m_cell_x_grenade: Some(id), ..self },
            Slot::MCellYGrenade => SpecialIDs { m_cell_y_grenade: Some(id), ..self },
            Slot::MCellZGrenade => SpecialIDs { m_cell_z_grenade: Some(id), ..self },
            Slot::ItemDef => SpecialIDs { item_def: Some(id), ..self },
            Slot::Buttons => SpecialIDs { buttons: Some(id), ..self },
            Slot::ActiveWeapon => SpecialIDs { active_weapon: Some(id), ..self },
            Slot::TeamTeamNum => SpecialIDs { team_team_num: Some(id), ..self },
            Slot::PlayerTeamPointer => SpecialIDs { player_team_pointer: Some(id), ..self },
            Slot::WeaponOwnerPointer => SpecialIDs { weapon_owner_pointer: Some(id), ..self },
            Slot::Teamnum => SpecialIDs { teamnum: Some(id), ..self },
            Slot::PlayerName => SpecialIDs { player_name: Some(id), ..self },
            Slot::Steamid => SpecialIDs { steamid: Some(id), ..self },
            Slot::PlayerPawn => SpecialIDs { player_pawn: Some(id), ..self },
            Slot::CellXPlayer => SpecialIDs { cell_x_player: Some(id), ..self },
            Slot::CellYPlayer => SpecialIDs { cell_y_player: Some(id), ..self },
            Slot::CellZPlayer => SpecialIDs { cell_z_player: Some(id), ..self },
            Slot::CellXOffsetPlayer => SpecialIDs { cell_x_offset_player: Some(id), ..self },
            Slot::CellYOffsetPlayer => SpecialIDs { cell_y_offset_player: Some(id), ..self },
            Slot::CellZOffsetPlayer => SpecialIDs { cell_z_offset_player: Some(id), ..self },
            Slot::EyeAngles => SpecialIDs { eye_angles: Some(id), ..self },
        }
    }

    /// The registry after `id` was offered to the cell `slot`: an empty cell
    /// takes it, a filled one keeps what it has.
    pub open spec fn offered(self, slot: Slot, id: u32) -> SpecialIDs {
        if self.cell(slot) is None {
            self.with_cell(slot, id)
        } else {
            self
        }
    }

    /// The registry after the field with canonical name `name` was met while
    /// the counter stood at `id`.
    pub open spec fn recorded(self, name: Seq<char>, is_grenade_or_weapon: bool, id: u32)
        -> SpecialIDs {
        match slot_of(name, is_grenade_or_weapon) {
            Some(slot) => self.offered(slot, id),
            None => self,
        }
    }

    /// A registry with every cell empty.
    pub fn new() -> (ids: SpecialIDs)
        ensures
            ids == SpecialIDs::empty(),
    {
        SpecialIDs {
            grenade_owner_id: None,
            m_vec_x_grenade: None,
            m_vec_y_grenade: None,
            m_vec_z_grenade: None,
            m_cell_x_grenade: None,
            m_cell_y_grenade: None,
            m_cell_z_grenade: None,
            item_def: None,
            buttons: None,
            active_weapon: None,
            team_team_num: None,
            player_team_pointer: None,
            weapon_owner_pointer: None,
            teamnum: None,
            player_name: None,
            steamid: None,
            player_pawn: None,
            cell_x_player: None,
            cell_y_player: None,
            cell_z_player: None,
            cell_x_offset_player: None,
            cell_y_offset_player: None,
            cell_z_offset_player: None,
            eye_angles: None,
        }
    }

    /// Reads the cell `slot`.
    pub fn get(&self, slot: Slot) -> (id: Option<u32>)
        ensures
            id == self.cell(slot),
    {
        match slot {
            Slot::GrenadeOwnerId => self.grenade_owner_id,
            Slot::MVecXGrenade => self.m_vec_x_grenade,
            Slot::MVecYGrenade => self.m_vec_y_grenade,
            Slot::MVecZGrenade => self.m_vec_z_grenade,
            Slot::MCellXGrenade => self.m_cell_x_grenade,
            Slot::MCellYGrenade => self.m_cell_y_grenade,
            Slot::MCellZGrenade => self.m_cell_z_grenade,
            Slot::ItemDef => self.item_def,
            Slot::Buttons => self.buttons,
            Slot::ActiveWeapon => self.active_weapon,
            Slot::TeamTeamNum => self.team_team_num,
            Slot::PlayerTeamPointer => self.player_team_pointer,
            Slot::WeaponOwnerPointer => self.weapon_owner_pointer,
            Slot::Teamnum => self.teamnum,
            Slot::PlayerName => self.player_name,
            Slot::Steamid => self.steamid,
            Slot::PlayerPawn => self.player_pawn,
            Slot::CellXPlayer => self.cell_x_player,
            Slot::CellYPlayer => self.cell_y_player,
            Slot::CellZPlayer => self.cell_z_player,
            Slot::CellXOffsetPlayer => self.cell_x_offset_player,
            Slot::CellYOffsetPlayer => self.cell_y_offset_player,
            Slot::CellZOffsetPlayer => self.cell_z_offset_player,
            Slot::EyeAngles => self.eye_angles,
        }
    }

    /// Offers `id` to the cell `slot`, which takes it only if it is empty.
    pub fn offer(&mut self, slot: Slot, id: u32)
        ensures
            *final(self) == old(self).offered(slot, id),
    {
        if self.get(slot).is_some() {
            return ;
        }
        match slot {
            Slot::GrenadeOwnerId => self.grenade_owner_id = Some(id),
            Slot::MVecXGrenade => self.m_vec_x_grenade = Some(id),
            Slot::MVecYGrenade => self.m_vec_y_grenade = Some(id),
            Slot::MVecZGrenade => self.m_vec_z_grenade = Some(id),
            Slot::MCellXGrenade => self.m_cell_x_grenade = Some(id),
            Slot::MCellYGrenade => self.m_cell_y_grenade = Some(id),
            Slot::MCellZGrenade => self.m_cell_z_grenade = Some(id),
            Slot::ItemDef => self.item_def = Some(id),
            Slot::Buttons => self.buttons = Some(id),
            Slot::ActiveWeapon => self.active_weapon = Some(id),
            Slot::TeamTeamNum => self.team_team_num = Some(id),
            Slot::PlayerTeamPointer => self.player_team_pointer = Some(id),
            Slot::WeaponOwnerPointer => self.weapon_owner_pointer = Some(id),
            Slot::Teamnum => self.teamnum = Some(id),
            Slot::PlayerName => self.player_name = Some(id),
            Slot::Steamid => self.steamid = Some(id),
            Slot::PlayerPawn => self.player_pawn = Some(id),
            Slot::CellXPlayer => self.cell_x_player = Some(id),
            Slot::CellYPlayer => self.cell_y_player = Some(id),
            Slot::CellZPlayer => self.cell_z_player = Some(id),
            Slot::CellXOffsetPlayer => self.cell_x_offset_player = Some(id),
            Slot::CellYOffsetPlayer => self.cell_y_offset_player = Some(id),
            Slot::CellZOffsetPlayer => self.cell_z_offset_player = Some(id),
            Slot::EyeAngles => self.eye_angles = Some(id),
        }
    }

    /// Records that the field with canonical name `name` was met while the
    /// counter stood at `id`. A name with no cell changes nothing.
    pub fn record(&mut self, name: &str, is_grenade_or_weapon: bool, id: u32)
        ensures
            *final(self) == old(self).recorded(name@, is_grenade_or_weapon, id),
    {
        match find_slot(name, is_grenade_or_weapon) {
            Some(slot) => self.offer(slot, id),
            None => {},
        }
    }
}

} // verus!
