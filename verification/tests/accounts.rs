use etcd_auth::{NewUser, Role, RoleUpdate, User, UserUpdate};

#[test]
fn new_user_has_no_roles() {
    let user = NewUser::new("alice", "secret");
    assert_eq!(user.name(), "alice");
    assert_eq!(user.password(), "secret");
    assert_eq!(*user.roles(), None);
}

#[test]
fn new_user_roles_are_kept_in_order() {
    let mut user = NewUser::new("alice", "secret");
    user.add_role("admin");
    assert_eq!(*user.roles(), Some(vec!["admin".to_owned()]));
    user.add_role("guest");
    user.add_role("admin");
    assert_eq!(
        *user.roles(),
        Some(vec!["admin".to_owned(), "guest".to_owned(), "admin".to_owned()])
    );
    assert_eq!(user.name(), "alice");
    assert_eq!(user.password(), "secret");
}

#[test]
fn user_update_starts_empty() {
    let update = UserUpdate::new("bob");
    assert_eq!(update.name(), "bob");
    assert_eq!(*update.password(), None);
    assert_eq!(*update.grants(), None);
    assert_eq!(*update.revocations(), None);
}

#[test]
fn user_update_collects_changes() {
    let mut update = UserUpdate::new("bob");
    update.update_password("first");
    update.update_password("second");
    update.grant_role("a");
    update.revoke_role("b");
    update.grant_role("c");
    update.revoke_role("d");
    assert_eq!(update.name(), "bob");
    assert_eq!(*update.password(), Some("second".to_owned()));
    assert_eq!(*update.grants(), Some(vec!["a".to_owned(), "c".to_owned()]));
    assert_eq!(*update.revocations(), Some(vec!["b".to_owned(), "d".to_owned()]));
}

#[test]
fn role_permissions_are_kept_in_order() {
    let mut role = Role::new("reader");
    assert_eq!(role.name(), "reader");
    assert!(role.kv_read_permissions().is_empty());
    assert!(role.kv_write_permissions().is_empty());
    role.add_kv_read_permission("/a/*");
    role.add_kv_write_permission("/b");
    role.add_kv_read_permission("/c");
    role.add_kv_read_permission("/a/*");
    assert_eq!(role.kv_read_permissions(), ["/a/*".to_owned(), "/c".to_owned(), "/a/*".to_owned()]);
    assert_eq!(role.kv_write_permissions(), ["/b".to_owned()]);
    assert_eq!(role.name(), "reader");
}

#[test]
fn user_holds_its_roles() {
    let mut admin = Role::new("admin");
    admin.add_kv_write_permission("/*");
    let user = User::new("carol", vec![admin.clone(), Role::new("guest")]);
    assert_eq!(user.name(), "carol");
    assert_eq!(user.roles(), [admin, Role::new("guest")]);
}

#[test]
fn role_update_collects_grants() {
    let mut update = RoleUpdate::new("reader");
    assert_eq!(update.name(), "reader");
    update.grant_kv_read_permission("/a");
    update.grant_kv_write_permission("/b");
    update.grant_kv_read_permission("/c");
    assert_eq!(update.granted_kv_read_permissions(), ["/a".to_owned(), "/c".to_owned()]);
    assert_eq!(update.granted_kv_write_permissions(), ["/b".to_owned()]);
    assert!(update.revoked_kv_read_permissions().is_empty());
    assert!(update.revoked_kv_write_permissions().is_empty());
}

#[test]
fn role_update_revoking_leaves_the_grants_alone() {
    let mut update = RoleUpdate::new("reader");
    update.grant_kv_read_permission("/a");
    update.grant_kv_write_permission("/a");
    update.revoke_kv_read_permission("/a");
    update.revoke_kv_write_permission("/a");
    update.revoke_kv_read_permission("/missing");
    assert_eq!(update.granted_kv_read_permissions(), ["/a".to_owned()]);
    assert_eq!(update.granted_kv_write_permissions(), ["/a".to_owned()]);
    assert!(update.revoked_kv_read_permissions().is_empty());
    assert!(update.revoked_kv_write_permissions().is_empty());
    assert_eq!(update, {
        let mut same = RoleUpdate::new("reader");
        same.grant_kv_read_permission("/a");
        same.grant_kv_write_permission("/a");
        same
    });
}
