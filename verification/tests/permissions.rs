use license_hub::permissions::{
    access_gate, method_action, permission_after_role, path_action, permission_after_user, permission_check_query,
    permission_first_step, policy_infos, role_infos, PermissionCheckReq, PermissionStep,
};

fn rows(data: &[&[&str]]) -> Vec<Vec<String>> {
    data.iter().map(|r| r.iter().map(|s| s.to_string()).collect()).collect()
}

#[test]
fn policies_are_listed_from_full_rows() {
    let stored = rows(&[&["admin", "/api/admin/apps", "read"], &["short", "x"], &["7", "/p", "delete", "extra"], &[]]);
    let listed: Vec<(String, String, String)> =
        policy_infos(&stored).into_iter().map(|p| (p.subject, p.object, p.action)).collect();
    assert_eq!(
        listed,
        vec![
            ("admin".into(), "/api/admin/apps".into(), "read".into()),
            ("7".into(), "/p".into(), "delete".into())
        ]
    );
}

#[test]
fn roles_are_listed_from_full_rows() {
    let stored = rows(&[&["12", "admin"], &["lonely"], &["13", "user", "domain"]]);
    let listed: Vec<(String, String)> = role_infos(&stored).into_iter().map(|r| (r.user, r.role)).collect();
    assert_eq!(listed, vec![("12".into(), "admin".into()), ("13".into(), "user".into())]);
    assert!(role_infos(&Vec::new()).is_empty());
}

#[test]
fn http_methods_map_to_actions() {
    assert_eq!(method_action("GET"), Some("read"));
    assert_eq!(method_action("POST"), Some("create"));
    assert_eq!(method_action("PUT"), Some("update"));
    assert_eq!(method_action("DELETE"), Some("delete"));
    assert_eq!(method_action("get"), None);
    assert_eq!(method_action("PATCH"), None);
    assert_eq!(path_action("get"), Some("read"));
    assert_eq!(path_action("Delete"), Some("delete"));
    assert_eq!(path_action("po\u{17F}t"), Some("create"));
    assert_eq!(path_action("options"), None);
}

#[test]
fn permission_steps() {
    match permission_first_step(-42, "/api/admin/apps", "put") {
        PermissionStep::Ask(q) => {
            assert_eq!((q.subject.as_str(), q.object.as_str(), q.action.as_str()), ("-42", "/api/admin/apps", "update"));
        }
        _ => panic!("expected a question"),
    }
    assert!(matches!(permission_first_step(1, "/x", "HEAD"), PermissionStep::Decided(false)));
    assert!(matches!(permission_after_user(true, "admin", "/x", "read"), PermissionStep::Decided(true)));
    match permission_after_user(false, "admin", "/x", "read") {
        PermissionStep::Ask(q) => assert_eq!((q.subject.as_str(), q.action.as_str()), ("admin", "read")),
        _ => panic!("expected the role question"),
    }
    let q = permission_check_query(&PermissionCheckReq { user_id: 5, resource: "/r".into(), action: "read".into() });
    assert_eq!((q.subject.as_str(), q.object.as_str()), ("5", "/r"));
}

#[test]
fn access_gate_statuses() {
    assert_eq!(access_gate(false, true, Some(true)), Err(500));
    assert_eq!(access_gate(true, false, Some(true)), Err(401));
    assert_eq!(access_gate(true, true, None), Err(500));
    assert_eq!(access_gate(true, true, Some(false)), Err(403));
    assert_eq!(access_gate(true, true, Some(true)), Ok(()));
}

#[test]
fn the_role_answer_decides() {
    assert!(matches!(permission_after_role(true), PermissionStep::Decided(true)));
    assert!(matches!(permission_after_role(false), PermissionStep::Decided(false)));
}
