use ahash::AHashMap;
use prop_controller::collect_data::PropType;
use prop_controller::model::{
    BUTTONS_BASEID, NAME_ID, NORMAL_PROP_BASEID, PITCH_ID, PLAYER_X_ID, PLAYER_Y_ID, PLAYER_Z_ID,
    STEAMID_ID, TICK_ID, WEAPON_NAME_ID, YAW_ID,
};
use prop_controller::prop_controller::{PropController, PropInfo};
use prop_controller::sendtables::Field;

fn leaf(name: &str) -> Field {
    Field { var_name: name.to_string(), serializer: None, should_parse: false, prop_id: 0 }
}

fn engine(wanted: &[&str]) -> PropController {
    PropController::new(wanted.iter().map(|s| s.to_string()).collect(), vec![], AHashMap::default())
}

fn record(id: u32, kind: PropType, name: &str) -> PropInfo {
    PropInfo {
        id,
        prop_type: Some(kind),
        prop_name: name.to_string(),
        prop_friendly_name: name.to_string(),
    }
}

#[test]
fn new_engine_is_empty() {
    let pc = engine(&["m_iClip1"]);
    assert_eq!(pc.id, NORMAL_PROP_BASEID);
    assert_eq!(pc.id, 1000);
    assert_eq!(pc.wanted_player_props, vec!["m_iClip1".to_string()]);
    assert!(pc.wanted_prop_ids.is_empty());
    assert!(pc.prop_infos.is_empty());
    assert_eq!(pc.prop_name_to_path.len(), 0);
    assert_eq!(pc.path_to_prop_name.len(), 0);
    assert_eq!(pc.name_to_id.len(), 0);
    assert_eq!(pc.id_to_name.len(), 0);
    assert_eq!(pc.name_to_special_id.len(), 0);
    assert!(pc.special_ids.team_team_num.is_none());
    assert!(pc.special_ids.eye_angles.is_none());
}

#[test]
fn new_engine_keeps_what_it_is_given() {
    let mut shown = AHashMap::default();
    shown.insert("m_iClip1".to_string(), "ammo".to_string());
    let pc = PropController::new(
        vec!["m_iClip1".to_string()],
        vec!["ammo".to_string()],
        shown,
    );
    assert_eq!(pc.wanted_player_og_props, vec!["ammo".to_string()]);
    assert_eq!(pc.real_name_to_og_name.len(), 1);
    assert_eq!(pc.real_name_to_og_name.get("m_iClip1"), Some(&"ammo".to_string()));
}

#[test]
fn weapon_classes_share_one_identifier() {
    let mut pc = engine(&["m_iClip1"]);
    let mut first = leaf("m_iClip1");
    let mut second = leaf("m_iClip1");
    let mut third = leaf("m_iClip1");
    pc.handle_prop("CAK47.m_iClip1", &mut first);
    pc.handle_prop("CWeaponSCAR20.m_iClip1", &mut second);
    pc.handle_prop("CSmokeGrenadeProjectile.m_iClip1", &mut third);
    assert_eq!(first.prop_id, 1000);
    assert_eq!(second.prop_id, 1000);
    assert_eq!(third.prop_id, 1000);
    assert_eq!(pc.prop_infos, vec![record(1000, PropType::Weapon, "m_iClip1")]);
    assert_eq!(pc.id, 1003);
    assert_eq!(pc.name_to_id.len(), 1);
    assert_eq!(pc.name_to_id.get("m_iClip1"), Some(&1000));
}

#[test]
fn both_directions_of_the_index_are_filled() {
    let mut pc = engine(&[]);
    let mut f = leaf("m_iClip1");
    pc.handle_prop("CAK47.m_iClip1", &mut f);
    pc.handle_prop("CCSPlayerPawn.m_iHealth", &mut f);
    pc.handle_prop("CWeaponNOVA.m_iClip1", &mut f);
    assert_eq!(pc.name_to_id.len(), 2);
    assert_eq!(pc.id_to_name.len(), 2);
    assert_eq!(pc.name_to_id.get("m_iClip1"), Some(&1000));
    assert_eq!(pc.name_to_id.get("CCSPlayerPawn.m_iHealth"), Some(&1001));
    assert_eq!(pc.id_to_name.get(&1000), Some(&"m_iClip1".to_string()));
    assert_eq!(pc.id_to_name.get(&1001), Some(&"CCSPlayerPawn.m_iHealth".to_string()));
    assert_eq!(pc.id_to_name.get(&1002), None);
    assert_eq!(f.prop_id, 1000);
    assert_eq!(pc.id, 1003);
}

#[test]
fn counter_advances_for_a_known_name() {
    let mut pc = engine(&[]);
    let mut f = leaf("m_iHealth");
    pc.handle_prop("CCSPlayerPawn.m_iHealth", &mut f);
    assert_eq!(pc.id, 1001);
    pc.handle_prop("CCSPlayerPawn.m_iHealth", &mut f);
    assert_eq!(pc.id, 1002);
    assert_eq!(f.prop_id, 1000);
    let mut g = leaf("m_ArmorValue");
    pc.handle_prop("CCSPlayerPawn.m_ArmorValue", &mut g);
    assert_eq!(g.prop_id, 1002);
    assert_eq!(pc.id, 1003);
}

#[test]
fn other_classes_keep_their_full_name() {
    let mut pc = engine(&["CCSPlayerPawn.m_iHealth", "m_iHealth"]);
    let mut f = leaf("m_iHealth");
    pc.handle_prop("CCSPlayerPawn.m_iHealth", &mut f);
    assert_eq!(pc.prop_infos, vec![record(1000, PropType::Player, "CCSPlayerPawn.m_iHealth")]);
    assert_eq!(pc.name_to_id.get("CCSPlayerPawn.m_iHealth"), Some(&1000));
    assert_eq!(pc.name_to_id.get("m_iHealth"), None);
}

#[test]
fn player_in_the_class_name_keeps_the_full_name() {
    let mut pc = engine(&[]);
    let mut f = leaf("m_nOwnerId");
    pc.handle_prop("CBasePlayerWeapon.m_nOwnerId", &mut f);
    assert_eq!(pc.name_to_id.get("CBasePlayerWeapon.m_nOwnerId"), Some(&1000));
    assert_eq!(pc.name_to_id.get("m_nOwnerId"), None);
    assert!(pc.special_ids.grenade_owner_id.is_none());
    assert_eq!(pc.special_ids.weapon_owner_pointer, Some(1000));
}

#[test]
fn only_the_first_segment_decides() {
    let mut pc = engine(&[]);
    let mut f = leaf("m_iClip1");
    pc.handle_prop("CCSTeam.CWeaponBase.m_iClip1", &mut f);
    assert_eq!(pc.name_to_id.get("CCSTeam.CWeaponBase.m_iClip1"), Some(&1000));
    pc.handle_prop("CWeaponBase.CCSPlayerPawn.m_iHealth", &mut f);
    assert_eq!(pc.name_to_id.get("CCSPlayerPawn.m_iHealth"), Some(&1001));
}

#[test]
fn weapon_class_without_a_field_resolves_to_the_empty_name() {
    let mut pc = engine(&[""]);
    let mut f = leaf("");
    pc.handle_prop("CAK47", &mut f);
    assert_eq!(f.prop_id, 1000);
    assert_eq!(pc.name_to_id.get(""), Some(&1000));
    assert_eq!(
        pc.prop_infos,
        vec![PropInfo {
            id: 1000,
            prop_type: None,
            prop_name: "".to_string(),
            prop_friendly_name: "".to_string(),
        }]
    );
}

#[test]
fn name_that_starts_with_a_dot_is_kept() {
    let mut pc = engine(&[]);
    let mut f = leaf("x");
    pc.handle_prop(".Weapon", &mut f);
    assert_eq!(pc.name_to_id.get(".Weapon"), Some(&1000));
}

#[test]
fn class_name_with_other_letters_is_dropped_whole() {
    let mut pc = engine(&[]);
    let mut f = leaf("m_iClip1");
    pc.handle_prop("CWeaponÄÖ\u{1F600}.m_iClip1", &mut f);
    assert_eq!(pc.name_to_id.get("m_iClip1"), Some(&1000));
    pc.handle_prop("WéaponGrénade.m_iClip1", &mut f);
    assert_eq!(pc.name_to_id.get("WéaponGrénade.m_iClip1"), Some(&1001));
}

#[test]
fn unrequested_leaf_adds_no_record() {
    let mut pc = engine(&["CCSPlayerPawn.m_iHealth"]);
    let mut f = leaf("m_iTeamNum");
    pc.handle_prop("CCSTeam.m_iTeamNum", &mut f);
    assert!(pc.prop_infos.is_empty());
    assert_eq!(pc.special_ids.team_team_num, Some(1000));
    assert!(f.should_parse);
    assert_eq!(f.prop_id, 1000);
    assert_eq!(pc.id, 1001);
}

#[test]
fn requested_leaf_of_unknown_kind_has_no_kind() {
    let mut pc = engine(&["CCSPlayerPawn.m_unknown"]);
    let mut f = leaf("m_unknown");
    pc.handle_prop("CCSPlayerPawn.m_unknown", &mut f);
    assert_eq!(
        pc.prop_infos,
        vec![PropInfo {
            id: 1000,
            prop_type: None,
            prop_name: "CCSPlayerPawn.m_unknown".to_string(),
            prop_friendly_name: "CCSPlayerPawn.m_unknown".to_string(),
        }]
    );
}

#[test]
fn record_is_shown_under_the_friendly_name() {
    let mut shown = AHashMap::default();
    shown.insert("m_iClip1".to_string(), "ammo".to_string());
    shown.insert("CCSPlayerPawn.m_iHealth".to_string(), "health".to_string());
    let mut pc = PropController::new(
        vec!["m_iClip1".to_string(), "CCSPlayerPawn.m_ArmorValue".to_string()],
        vec![],
        shown,
    );
    let mut f = leaf("m_iClip1");
    pc.handle_prop("CAK47.m_iClip1", &mut f);
    pc.handle_prop("CCSPlayerPawn.m_ArmorValue", &mut f);
    assert_eq!(
        pc.prop_infos,
        vec![
            PropInfo {
                id: 1000,
                prop_type: Some(PropType::Weapon),
                prop_name: "m_iClip1".to_string(),
                prop_friendly_name: "ammo".to_string(),
            },
            PropInfo {
                id: 1001,
                prop_type: Some(PropType::Player),
                prop_name: "CCSPlayerPawn.m_ArmorValue".to_string(),
                prop_friendly_name: "CCSPlayerPawn.m_ArmorValue".to_string(),
            },
        ]
    );
}

#[test]
fn filled_cell_is_not_written_again() {
    let mut pc = engine(&[]);
    let mut f = leaf("m_iTeamNum");
    pc.handle_prop("CCSTeam.m_iTeamNum", &mut f);
    assert_eq!(pc.special_ids.team_team_num, Some(1000));
    pc.handle_prop("CCSPlayerPawn.m_iHealth", &mut f);
    pc.handle_prop("CCSTeam.m_iTeamNum", &mut f);
    assert_eq!(pc.special_ids.team_team_num, Some(1000));
    assert_eq!(f.prop_id, 1000);
    assert_eq!(pc.id, 1003);
}

#[test]
fn cell_shared_by_both_tables_keeps_its_first_identifier() {
    let mut pc = engine(&[]);
    let mut f = leaf("m_hActiveWeapon");
    pc.handle_prop("CCSPlayerPawn.m_iHealth", &mut f);
    pc.handle_prop("CCSPlayerPawn.CCSPlayer_WeaponServices.m_hActiveWeapon", &mut f);
    assert_eq!(pc.special_ids.active_weapon, Some(1001));
    pc.handle_prop("CAK47.CCSPlayerPawn.CCSPlayer_WeaponServices.m_hActiveWeapon", &mut f);
    assert_eq!(pc.special_ids.active_weapon, Some(1001));
    assert_eq!(f.prop_id, 1001);
}

#[test]
fn weapon_table_and_plain_table_are_kept_apart() {
    let mut pc = engine(&[]);
    let mut f = leaf("m_cellX");
    pc.handle_prop("CCSPlayerPawn.CBodyComponentBaseAnimGraph.m_cellX", &mut f);
    assert_eq!(pc.special_ids.cell_x_player, Some(1000));
    assert!(pc.special_ids.m_cell_x_grenade.is_none());
    pc.handle_prop("CSmokeGrenadeProjectile.CBodyComponentBaseAnimGraph.m_cellX", &mut f);
    assert_eq!(pc.special_ids.cell_x_player, Some(1000));
    assert_eq!(pc.special_ids.m_cell_x_grenade, Some(1001));
    pc.handle_prop("m_nOwnerId", &mut f);
    assert!(pc.special_ids.grenade_owner_id.is_none());
}

#[test]
fn every_grenade_cell_is_filled_by_its_field() {
    let mut pc = engine(&[]);
    let mut f = leaf("x");
    pc.handle_prop("CHEGrenadeProjectile.m_nOwnerId", &mut f);
    pc.handle_prop("CHEGrenadeProjectile.CBodyComponentBaseAnimGraph.m_vecX", &mut f);
    pc.handle_prop("CHEGrenadeProjectile.CBodyComponentBaseAnimGraph.m_vecY", &mut f);
    pc.handle_prop("CHEGrenadeProjectile.CBodyComponentBaseAnimGraph.m_vecZ", &mut f);
    pc.handle_prop("CHEGrenadeProjectile.CBodyComponentBaseAnimGraph.m_cellX", &mut f);
    pc.handle_prop("CHEGrenadeProjectile.CBodyComponentBaseAnimGraph.m_cellY", &mut f);
    pc.handle_prop("CHEGrenadeProjectile.CBodyComponentBaseAnimGraph.m_cellZ", &mut f);
    pc.handle_prop("CHEGrenadeProjectile.m_iItemDefinitionIndex", &mut f);
    assert_eq!(pc.special_ids.grenade_owner_id, Some(1000));
    assert_eq!(pc.special_ids.m_vec_x_grenade, Some(1001));
    assert_eq!(pc.special_ids.m_vec_y_grenade, Some(1002));
    assert_eq!(pc.special_ids.m_vec_z_grenade, Some(1003));
    assert_eq!(pc.special_ids.m_cell_x_grenade, Some(1004));
    assert_eq!(pc.special_ids.m_cell_y_grenade, Some(1005));
    assert_eq!(pc.special_ids.m_cell_z_grenade, Some(1006));
    assert_eq!(pc.special_ids.item_def, Some(1007));
}

#[test]
fn every_plain_cell_is_filled_by_its_field() {
    let mut pc = engine(&[]);
    let mut f = leaf("x");
    pc.handle_prop("CCSTeam.m_iTeamNum", &mut f);
    pc.handle_prop("CCSPlayerPawn.m_iTeamNum", &mut f);
    pc.handle_prop("CBasePlayerWeapon.m_nOwnerId", &mut f);
    pc.handle_prop("CCSPlayerController.m_iTeamNum", &mut f);
    pc.handle_prop("CCSPlayerController.m_iszPlayerName", &mut f);
    pc.handle_prop("CCSPlayerController.m_steamID", &mut f);
    pc.handle_prop("CCSPlayerController.m_hPlayerPawn", &mut f);
    pc.handle_prop("CCSPlayerPawn.CBodyComponentBaseAnimGraph.m_cellX", &mut f);
    pc.handle_prop("CCSPlayerPawn.CCSPlayer_MovementServices.m_nButtonDownMaskPrev", &mut f);
    pc.handle_prop("CCSPlayerPawn.CBodyComponentBaseAnimGraph.m_vecX", &mut f);
    pc.handle_prop("CCSPlayerPawn.CBodyComponentBaseAnimGraph.m_cellY", &mut f);
    pc.handle_prop("CCSPlayerPawn.m_angEyeAngles", &mut f);
    pc.handle_prop("CCSPlayerPawn.CBodyComponentBaseAnimGraph.m_vecY", &mut f);
    pc.handle_prop("CCSPlayerPawn.CBodyComponentBaseAnimGraph.m_cellZ", &mut f);
    pc.handle_prop("CCSPlayerPawn.CBodyComponentBaseAnimGraph.m_vecZ", &mut f);
    pc.handle_prop("CCSPlayerPawn.CCSPlayer_WeaponServices.m_hActiveWeapon", &mut f);
    assert_eq!(pc.special_ids.team_team_num, Some(1000));
    assert_eq!(pc.special_ids.player_team_pointer, Some(1001));
    assert_eq!(pc.special_ids.weapon_owner_pointer, Some(1002));
    assert_eq!(pc.special_ids.teamnum, Some(1003));
    assert_eq!(pc.special_ids.player_name, Some(1004));
    assert_eq!(pc.special_ids.steamid, Some(1005));
    assert_eq!(pc.special_ids.player_pawn, Some(1006));
    assert_eq!(pc.special_ids.cell_x_player, Some(1007));
    assert_eq!(pc.special_ids.buttons, Some(1008));
    assert_eq!(pc.special_ids.cell_x_offset_player, Some(1009));
    assert_eq!(pc.special_ids.cell_y_player, Some(1010));
    assert_eq!(pc.special_ids.eye_angles, Some(1011));
    assert_eq!(pc.special_ids.cell_y_offset_player, Some(1012));
    assert_eq!(pc.special_ids.cell_z_player, Some(1013));
    assert_eq!(pc.special_ids.cell_z_offset_player, Some(1014));
    assert_eq!(pc.special_ids.active_weapon, Some(1015));
    assert!(pc.special_ids.grenade_owner_id.is_none());
    assert!(pc.special_ids.item_def.is_none());
}

#[test]
fn flag_that_was_set_is_never_cleared() {
    let mut pc = engine(&[]);
    let mut f = leaf("m_iHealth");
    f.should_parse = true;
    pc.handle_prop("CCSPlayerPawn.m_iHealth", &mut f);
    assert!(f.should_parse);
    let mut g = leaf("m_iHealth");
    pc.handle_prop("CCSPlayerPawn.m_iHealth", &mut g);
    assert!(!g.should_parse);
    pc.handle_prop("CCSTeam.m_iTeamNum", &mut g);
    assert!(g.should_parse);
    pc.handle_prop("CCSPlayerPawn.m_iHealth", &mut g);
    assert!(g.should_parse);
}

#[test]
fn fixed_records_do_not_depend_on_what_was_asked_for() {
    let wanted: [&[&str]; 4] =
        [&[], &["pitch", "yaw"], &["A", "FIRE", "X"], &["weapon_name", "W", "Z", "Y", "name"]];
    for w in wanted {
        let mut pc = engine(w);
        pc.set_custom_propinfos();
        let n = pc.prop_infos.len();
        assert!(n >= 3);
        assert_eq!(pc.prop_infos[n - 3], record(4, PropType::Tick, "tick"));
        assert_eq!(pc.prop_infos[n - 2], record(5, PropType::Steamid, "steamid"));
        assert_eq!(pc.prop_infos[n - 1], record(6, PropType::Name, "name"));
        assert_eq!(pc.id, 1000);
    }
    assert_eq!((TICK_ID, STEAMID_ID, NAME_ID), (4, 5, 6));
}

#[test]
fn derived_records_do_not_depend_on_the_order_of_the_request() {
    let mut one = engine(&["yaw", "A", "pitch", "X", "W"]);
    let mut other = engine(&["W", "X", "X", "pitch", "A", "yaw", "A"]);
    one.set_custom_propinfos();
    other.set_custom_propinfos();
    assert_eq!(one.prop_infos, other.prop_infos);
}

#[test]
fn derived_records_come_in_their_fixed_order() {
    let mut pc = engine(&["Z", "Y", "X", "yaw", "pitch", "weapon_name", "WALK", "A", "W"]);
    pc.set_custom_propinfos();
    assert_eq!(
        pc.prop_infos,
        vec![
            record(100000, PropType::Button, "W"),
            record(100001, PropType::Button, "A"),
            record(100002, PropType::Button, "WALK"),
            record(1, PropType::Custom, "active_weapon_name"),
            record(3, PropType::Custom, "pitch"),
            record(2, PropType::Custom, "yaw"),
            record(7, PropType::Custom, "X"),
            record(8, PropType::Custom, "Y"),
            record(9, PropType::Custom, "Z"),
            record(4, PropType::Tick, "tick"),
            record(5, PropType::Steamid, "steamid"),
            record(6, PropType::Name, "name"),
        ]
    );
    assert_eq!(
        (WEAPON_NAME_ID, YAW_ID, PITCH_ID, PLAYER_X_ID, PLAYER_Y_ID, PLAYER_Z_ID),
        (1, 2, 3, 7, 8, 9)
    );
    assert_eq!(BUTTONS_BASEID, 100000);
}

#[test]
fn every_button_gets_the_next_identifier() {
    let names = [
        "W",
        "A",
        "S",
        "D",
        "FIRE",
        "RIGHTCLICK",
        "RELOAD",
        "INSPECT",
        "USE",
        "ZOOM",
        "SCOREBOARD",
        "WALK",
    ];
    let mut pc = engine(&names);
    pc.set_custom_propinfos();
    assert_eq!(pc.prop_infos.len(), 15);
    for (i, name) in names.iter().enumerate() {
        assert_eq!(pc.prop_infos[i], record(100000 + i as u32, PropType::Button, name));
    }
}

#[test]
fn derived_records_stand_before_discovered_ones() {
    let mut pc = engine(&["m_iClip1", "yaw"]);
    pc.set_custom_propinfos();
    let mut f = leaf("m_iClip1");
    pc.handle_prop("CAK47.m_iClip1", &mut f);
    assert_eq!(
        pc.prop_infos,
        vec![
            record(2, PropType::Custom, "yaw"),
            record(4, PropType::Tick, "tick"),
            record(5, PropType::Steamid, "steamid"),
            record(6, PropType::Name, "name"),
            record(1000, PropType::Weapon, "m_iClip1"),
        ]
    );
}

#[test]
fn registering_twice_appends_twice() {
    let mut pc = engine(&[]);
    pc.set_custom_propinfos();
    pc.set_custom_propinfos();
    assert_eq!(pc.prop_infos.len(), 6);
    assert_eq!(pc.prop_infos[3], record(4, PropType::Tick, "tick"));
}

#[test]
fn short_path_is_filled_with_zeros() {
    assert_eq!(PropController::vec_to_arr(&vec![]), [0, 0, 0, 0, 0, 0, 0]);
    assert_eq!(PropController::vec_to_arr(&vec![5]), [5, 0, 0, 0, 0, 0, 0]);
    assert_eq!(PropController::vec_to_arr(&vec![-1, i32::MAX, i32::MIN]), [
        -1,
        i32::MAX,
        i32::MIN,
        0,
        0,
        0,
        0
    ]);
}

#[test]
fn full_path_is_kept() {
    assert_eq!(PropController::vec_to_arr(&vec![1, 2, 3, 4, 5, 6, 7]), [1, 2, 3, 4, 5, 6, 7]);
}

#[test]
fn long_path_keeps_its_first_seven_entries() {
    assert_eq!(PropController::vec_to_arr(&vec![1, 2, 3, 4, 5, 6, 7, 8]), [1, 2, 3, 4, 5, 6, 7]);
    assert_eq!(PropController::vec_to_arr(&vec![9; 100]), [9, 9, 9, 9, 9, 9, 9]);
}

#[test]
fn path_is_found_again_through_the_name() {
    let mut pc = engine(&[]);
    let path = vec![3, 0, 12];
    let arr = PropController::vec_to_arr(&path);
    pc.prop_name_to_path.insert("CCSPlayerPawn.m_iHealth".to_string(), arr);
    pc.path_to_prop_name.insert(arr, "CCSPlayerPawn.m_iHealth".to_string());
    let back = pc.prop_name_to_path["CCSPlayerPawn.m_iHealth"];
    assert_eq!(&back[..path.len()], &path[..]);
    assert_eq!(&back[path.len()..], &[0, 0, 0, 0]);
    assert_eq!(pc.path_to_prop_name[&back], "CCSPlayerPawn.m_iHealth");
}
