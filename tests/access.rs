use my_hood::access::{AssociationMutation, FieldMutation};
use my_hood::association::{Association, AssociationUpdate};
use my_hood::error::Rejection;
use my_hood::relations::{Relations, Role};
use my_hood::time::Instant;

#[test]
fn member_reserves_for_themself() {
    let roles = vec![Role::Member];
    assert_eq!(FieldMutation::authorize_reservation(Some(7), 7, &roles), Ok(7));
    assert_eq!(FieldMutation::authorize_reservation(Some(7), 8, &roles), Err(Rejection::Unauthorized));
    assert_eq!(FieldMutation::authorize_reservation(None, 7, &roles), Err(Rejection::Unauthorized));
    assert_eq!(FieldMutation::authorize_reservation(Some(7), 7, &vec![Role::Admin]), Err(Rejection::Unauthorized));
}

#[test]
fn only_owner_withdraws() {
    let roles = vec![Role::Admin, Role::Member];
    assert_eq!(FieldMutation::authorize_withdrawal(Some(3), 3, &roles), Ok(3));
    assert_eq!(FieldMutation::authorize_withdrawal(Some(4), 3, &roles), Err(Rejection::Unauthorized));
    assert_eq!(FieldMutation::authorize_withdrawal(Some(3), 3, &vec![]), Err(Rejection::Unauthorized));
}

#[test]
fn admins_create_fields_and_update_associations() {
    assert_eq!(FieldMutation::authorize_field_creation(Some(1), &vec![Role::Treasurer, Role::Admin]), Ok(1));
    assert_eq!(FieldMutation::authorize_field_creation(Some(1), &vec![Role::Member]), Err(Rejection::Unauthorized));
    assert_eq!(FieldMutation::authorize_field_creation(None, &vec![Role::Admin]), Err(Rejection::Unauthorized));
    assert_eq!(AssociationMutation::authorize_update(Some(2), &vec![Role::Admin]), Ok(2));
    assert_eq!(AssociationMutation::authorize_update(Some(2), &vec![Role::Treasurer]), Err(Rejection::Unauthorized));
}

#[test]
fn role_lookup() {
    let roles = vec![Role::Member, Role::Treasurer];
    assert!(Relations::has_role(&roles, Role::Treasurer));
    assert!(!Relations::has_role(&roles, Role::Admin));
    assert!(!Relations::has_role(&vec![], Role::Member));
}

fn association() -> Association {
    Association {
        id: 5,
        name: "Hood".to_owned(),
        neighborhood: "Centro".to_owned(),
        country: "Brasil".to_owned(),
        state: "BA".to_owned(),
        address: "Rua 1".to_owned(),
        identity: None,
        public: false,
        deleted: None,
        created_at: Instant::from_unix_seconds(100),
        updated_at: Instant::from_unix_seconds(200),
    }
}

#[test]
fn update_replaces_only_given_fields() {
    let update = AssociationUpdate {
        name: Some("New hood".to_owned()),
        neighborhood: None,
        country: None,
        state: Some("SP".to_owned()),
        address: None,
        identity: Some("12.345".to_owned()),
        public: Some(true),
        deleted: None,
    };
    let a = update.apply(&association());
    assert_eq!(a.id, 5);
    assert_eq!(a.name, "New hood");
    assert_eq!(a.neighborhood, "Centro");
    assert_eq!(a.country, "Brasil");
    assert_eq!(a.state, "SP");
    assert_eq!(a.address, "Rua 1");
    assert_eq!(a.identity.as_deref(), Some("12.345"));
    assert!(a.public);
    assert_eq!(a.deleted, None);
    assert_eq!(a.updated_at, Instant::from_unix_seconds(200));
}

#[test]
fn empty_update_changes_nothing() {
    let update = AssociationUpdate {
        name: None,
        neighborhood: None,
        country: None,
        state: None,
        address: None,
        identity: None,
        public: None,
        deleted: Some(true),
    };
    let a = update.apply(&association());
    assert_eq!(a.name, "Hood");
    assert!(!a.public);
    assert_eq!(a.deleted, Some(true));
}
