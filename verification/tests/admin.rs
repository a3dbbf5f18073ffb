use tunebot::commands::admin::{
    check_roles, danger_warning, find_offender, role_button_id, selected_role, selection_reply,
    RoleInfo, GENERAL_PERMISSIONS, KNOWN_PERMISSIONS,
};

fn role(id: u64, name: &str, permissions: u64) -> RoleInfo {
    RoleInfo { id, name: name.to_string(), permissions }
}

#[test]
fn general_roles_may_be_offered() {
    let roles = vec![
        role(1, "reader", 1 << 10),
        role(2, "talker", (1 << 11) | (1 << 21) | (1 << 20)),
        role(3, "nothing", 0),
        role(4, "everything general", GENERAL_PERMISSIONS),
    ];
    assert_eq!(check_roles(&roles), None);
    assert_eq!(check_roles(&Vec::new()), None);
}

#[test]
fn general_permissions_are_the_documented_ones() {
    let documented = [0u32, 6, 10, 11, 12, 14, 15, 16, 17, 18, 20, 21, 25, 26];
    let mut bits = 0u64;
    for b in documented {
        bits |= 1 << b;
    }
    assert_eq!(GENERAL_PERMISSIONS, bits);
}

#[test]
fn every_other_known_permission_is_dangerous() {
    for bit in 0..64u32 {
        let roles = vec![role(9, "single", 1u64 << bit)];
        let known = KNOWN_PERMISSIONS & (1 << bit) != 0;
        let general = GENERAL_PERMISSIONS & (1 << bit) != 0;
        assert_eq!(check_roles(&roles).is_some(), known && !general, "bit {}", bit);
    }
}

#[test]
fn warning_names_the_dangerous_permissions() {
    let roles = vec![
        role(1, "reader", 1 << 10),
        role(2, "mod", (1 << 1) | (1 << 2) | (1 << 11)),
        role(3, "admin", 1 << 3),
    ];
    assert_eq!(
        check_roles(&roles),
        Some("'mod' has dangerous permissions:\n* Kick Members\n* Ban Members".to_string())
    );
    assert_eq!(
        check_roles(&vec![role(3, "admin", 1 << 3)]),
        Some("'admin' has dangerous permissions:\n* Administrator".to_string())
    );
}

#[test]
fn first_offender_is_reported() {
    let roles = vec![role(1, "a", 0b0100), role(2, "b", 0b0011), role(3, "c", 0b0001)];
    assert_eq!(find_offender(&roles, 0b0001), Some(1));
    assert_eq!(find_offender(&roles, 0b0100), Some(0));
    assert_eq!(find_offender(&roles, 0b0111), Some(0));
    assert_eq!(find_offender(&roles, 0b1000), None);
    assert_eq!(find_offender(&roles, 0), None);
    assert_eq!(find_offender(&Vec::new(), u64::MAX), None);
}

#[test]
fn warning_lists_permissions_as_bullets() {
    assert_eq!(
        danger_warning("mod", &vec!["Kick Members".to_string(), "Ban Members".to_string()]),
        "'mod' has dangerous permissions:\n* Kick Members\n* Ban Members"
    );
    assert_eq!(danger_warning("x", &Vec::new()), "'x' has dangerous permissions:\n* ");
}

#[test]
fn buttons_name_their_role() {
    assert_eq!(role_button_id(42, 7), "42:7");
    assert_eq!(role_button_id(0, u64::MAX), "0:18446744073709551615");
    for (ctx, id) in [(0u64, 0u64), (42, 7), (1234567890123456789, 987654321098765432), (u64::MAX, u64::MAX)] {
        assert_eq!(selected_role(&role_button_id(ctx, id)), Some(id));
    }
}

#[test]
fn roles_are_read_after_the_first_colon() {
    assert_eq!(selected_role("42:7"), Some(7));
    assert_eq!(selected_role(":7"), Some(7));
    assert_eq!(selected_role("a:b:7"), None);
    assert_eq!(selected_role("42:7:8"), None);
    assert_eq!(selected_role("42:"), None);
    assert_eq!(selected_role("42"), None);
    assert_eq!(selected_role(""), None);
    assert_eq!(selected_role("42:+7"), Some(7));
    assert_eq!(selected_role("42:18446744073709551616"), None);
    assert_eq!(selected_role("\u{e9}:5"), Some(5));
}

#[test]
fn selection_mentions_the_role() {
    assert_eq!(selection_reply(7), "Selected <@&7>");
}
