use peoplemodeler::team::{
    count_label, display_icon, is_member, new_team_name, set_membership, team_icon,
    team_member_positions, team_title, Team,
};

fn team(icon: &str) -> Team {
    Team { id: "1".into(), name: "Test".into(), icon: icon.into(), member_ids: vec![], created_at: 0 }
}

#[test]
fn team_icon_empty() {
    assert_eq!(team_icon(&team("")), "🎯");
}

#[test]
fn team_icon_custom() {
    assert_eq!(team_icon(&team("🚀")), "🚀");
}

#[test]
fn display_icon_of_missing_team() {
    assert_eq!(display_icon(None), "🎯");
    assert_eq!(display_icon(Some(&team("🌱"))), "🌱");
}

#[test]
fn count_label_fills_every_placeholder() {
    assert_eq!(count_label("{0} members", 12), "12 members");
    assert_eq!(count_label("{0}/{0}", 0), "0/0");
}

#[test]
fn membership_tick_and_untick() {
    let mut ids: Vec<String> = vec!["a".into()];
    set_membership(&mut ids, "b", true);
    assert_eq!(ids, vec!["a", "b"]);
    set_membership(&mut ids, "b", true);
    assert_eq!(ids, vec!["a", "b"]);
    assert!(is_member(&ids, "b"));
    set_membership(&mut ids, "a", false);
    assert_eq!(ids, vec!["b"]);
    assert!(!is_member(&ids, "a"));
}

#[test]
fn untick_removes_every_copy() {
    let mut ids: Vec<String> = vec!["x".into(), "y".into(), "x".into()];
    set_membership(&mut ids, "x", false);
    assert_eq!(ids, vec!["y"]);
}

#[test]
fn new_team_name_is_trimmed() {
    assert_eq!(new_team_name("  Core  ").as_deref(), Some("Core"));
    assert_eq!(new_team_name(" \t "), None);
    assert_eq!(new_team_name(""), None);
}

#[test]
fn team_members_by_position() {
    let ids: Vec<String> = vec!["a".into(), "b".into(), "c".into()];
    let members: Vec<String> = vec!["c".into(), "a".into(), "zz".into()];
    assert_eq!(team_member_positions(&ids, &members, false), vec![0, 2]);
    assert_eq!(team_member_positions(&ids, &members, true), vec![0, 1, 2]);
}

#[test]
fn team_title_fallbacks() {
    assert_eq!(team_title(true, "Everyone", Some("Core"), "Team"), "Everyone");
    assert_eq!(team_title(false, "Everyone", Some("Core"), "Team"), "Core");
    assert_eq!(team_title(false, "Everyone", None, "Team"), "Team");
}
