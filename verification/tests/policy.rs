use prop_controller::policy::should_parse_name;

fn asked(wanted: &[&str]) -> Vec<String> {
    wanted.iter().map(|s| s.to_string()).collect()
}

#[test]
fn nothing_asked_for_means_only_the_fixed_rules() {
    let none = asked(&[]);
    assert!(!should_parse_name(&none, "CCSPlayerPawn.m_iHealth"));
    assert!(!should_parse_name(&none, "CCSPlayerPawn.m_angEyeAngles"));
    assert!(!should_parse_name(&none, "CCSPlayerPawn.CBodyComponentBaseAnimGraph.m_cellX"));
    assert!(!should_parse_name(&none, "CBodyComponentBaseAnimGraph.m_vecX"));
    assert!(!should_parse_name(&none, ""));
}

#[test]
fn asked_for_name_is_parsed() {
    let wanted = asked(&["CCSPlayerPawn.m_iHealth"]);
    assert!(should_parse_name(&wanted, "CCSPlayerPawn.m_iHealth"));
    assert!(!should_parse_name(&wanted, "CCSPlayerPawn.m_iHealt"));
    assert!(!should_parse_name(&wanted, "CCSPlayerPawn.m_iHealth2"));
    assert!(!should_parse_name(&wanted, "m_iHealth"));
}

#[test]
fn position_parts_are_parsed_when_a_coordinate_is_asked_for() {
    for axis in ["X", "Y", "Z"] {
        let wanted = asked(&[axis]);
        assert!(should_parse_name(&wanted, "CCSPlayerPawn.CBodyComponentBaseAnimGraph.m_cellX"));
        assert!(should_parse_name(&wanted, "CBodyComponentBaseAnimGraph.m_cellZ"));
        assert!(should_parse_name(&wanted, "CBodyComponentBaseAnimGraph.m_vecY"));
        assert!(should_parse_name(&wanted, "m_vecVelocity"));
        assert!(should_parse_name(&wanted, "excellent"));
        assert!(!should_parse_name(&wanted, "CCSPlayerPawn.m_iHealth"));
        assert!(!should_parse_name(&wanted, "m_ve"));
        assert!(!should_parse_name(&wanted, "cel"));
    }
    assert!(!should_parse_name(&asked(&["x"]), "m_cellX"));
}

#[test]
fn yaw_makes_every_leaf_parsed() {
    let wanted = asked(&["yaw"]);
    assert!(should_parse_name(&wanted, "CCSPlayerPawn.m_angEyeAngles"));
    assert!(should_parse_name(&wanted, "CCSPlayerPawn.m_iHealth"));
    assert!(should_parse_name(&wanted, ""));
}

#[test]
fn pitch_makes_the_eye_angles_parsed() {
    let wanted = asked(&["pitch"]);
    assert!(should_parse_name(&wanted, "CCSPlayerPawn.m_angEyeAngles"));
    assert!(!should_parse_name(&wanted, "CCSPlayerPawn.m_iHealth"));
    assert!(!should_parse_name(&wanted, "m_angEyeAngles"));
    assert!(!should_parse_name(&wanted, "CCSPlayerPawn.m_angEyeAngles.x"));
}

#[test]
fn fixed_fields_are_always_parsed() {
    let none = asked(&[]);
    assert!(should_parse_name(&none, "m_nOwnerId"));
    assert!(should_parse_name(&none, "m_iItemDefinitionIndex"));
    assert!(should_parse_name(
        &none,
        "CCSPlayerPawn.CCSPlayer_MovementServices.m_nButtonDownMaskPrev"
    ));
    assert!(should_parse_name(&none, "CCSPlayerPawn.CCSPlayer_WeaponServices.m_hActiveWeapon"));
    assert!(should_parse_name(&none, "CCSPlayerPawn.m_iTeamNum"));
    assert!(should_parse_name(&none, "CBasePlayerWeapon.m_nOwnerId"));
    assert!(!should_parse_name(&none, "m_nOwnerI"));
    assert!(!should_parse_name(
        &none,
        "CCSPlayerPawn.CCSPlayer_MovementServices.m_nButtonDownMask"
    ));
}

#[test]
fn weapon_fields_are_always_parsed() {
    let none = asked(&[]);
    assert!(should_parse_name(&none, "m_iClip1"));
    assert!(should_parse_name(&none, "m_iClip2"));
    assert!(should_parse_name(&none, "m_zoomLevel"));
    assert!(!should_parse_name(&none, "m_iClip3"));
    assert!(!should_parse_name(&none, "CCSTeam.m_iScore"));
    assert!(!should_parse_name(&none, "CCSPlayerController.m_iPing"));
}

#[test]
fn identity_fields_are_parsed_wherever_they_are_mentioned() {
    let none = asked(&[]);
    assert!(should_parse_name(&none, "CCSTeam.m_iTeamNum"));
    assert!(should_parse_name(&none, "CCSPlayerController.m_iTeamNum"));
    assert!(should_parse_name(&none, "CCSPlayerController.m_iszPlayerName"));
    assert!(should_parse_name(&none, "CCSPlayerController.m_steamID"));
    assert!(should_parse_name(&none, "CCSPlayerController.m_hPlayerPawn"));
    assert!(should_parse_name(&none, "CCSPlayerController.m_bPawnIsAlive"));
    assert!(should_parse_name(&none, "m_hActiveWeapon"));
    assert!(should_parse_name(&none, "outer.CCSTeam.m_iTeamNumber"));
    assert!(should_parse_name(&none, "some.m_hActiveWeaponHandle"));
    assert!(!should_parse_name(&none, "CCSTeam.m_iTeamNu"));
    assert!(!should_parse_name(&none, "CCSPlayerController.m_iPing"));
}
