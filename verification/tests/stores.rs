use user_store::doc_store::DocStore;
use user_store::errors::AppError;
use user_store::models::User;
use user_store::models::UserMongo;
use user_store::rel_store::RelStore;

fn mongo_record(name: &str, email: &str) -> UserMongo {
    UserMongo { id: None, name: name.to_string(), email: email.to_string() }
}

fn rel_record(name: &str, email: &str) -> User {
    User { id: None, name: name.to_string(), email: email.to_string() }
}

#[test]
fn malformed_id_is_bad_request_and_mutates_nothing() {
    let mut store = DocStore::new();
    let created = store.add_user(mongo_record("Ada", "ada@example.com")).unwrap();
    let _ = created;

    let r = store.update_user("not-a-valid-id", mongo_record("X", "x@example.com"));
    match r {
        Err(AppError::BadRequest(msg)) => assert_eq!(msg, "Invalid ID format"),
        other => panic!("expected BadRequest, got {:?}", other),
    }
    let r = store.delete_user("zz23456789abcdef01234567");
    match r {
        Err(AppError::BadRequest(msg)) => assert_eq!(msg, "Invalid ID format"),
        other => panic!("expected BadRequest, got {:?}", other),
    }

    let listed = store.get_users();
    assert_eq!(listed.len(), 1);
    assert_eq!(listed[0].name, "Ada");
    assert_eq!(listed[0].email, "ada@example.com");
}

#[test]
fn absent_id_is_not_found_and_mutates_nothing() {
    let mut store = DocStore::new();
    store.add_user(mongo_record("Ada", "ada@example.com")).unwrap();

    let absent = "0123456789abcdef01234567";
    let r = store.update_user(absent, mongo_record("X", "x@example.com"));
    match r {
        Err(AppError::NotFound(msg)) => assert_eq!(msg, "User not found"),
        other => panic!("expected NotFound, got {:?}", other),
    }
    let r = store.delete_user(absent);
    match r {
        Err(AppError::NotFound(msg)) => assert_eq!(msg, "User not found"),
        other => panic!("expected NotFound, got {:?}", other),
    }

    let listed = store.get_users();
    assert_eq!(listed.len(), 1);
    assert_eq!(listed[0].name, "Ada");
}

#[test]
fn created_record_has_fresh_id_and_is_listed() {
    let mut store = DocStore::new();
    let created = store.add_user(mongo_record("Ada", "ada@example.com")).unwrap();

    let id = created.id.as_ref().expect("created record must carry an identifier");
    assert_eq!(id.as_str().len(), 24);
    assert_eq!(created.name, "Ada");
    assert_eq!(created.email, "ada@example.com");

    let listed = store.get_users();
    assert_eq!(listed.len(), 1);
    let listed_id = listed[0].id.as_ref().unwrap();
    assert_eq!(listed_id.as_str(), id.as_str());
    assert_eq!(listed[0].name, "Ada");
    assert_eq!(listed[0].email, "ada@example.com");
}

#[test]
fn update_is_visible_on_reread() {
    let mut store = DocStore::new();
    let created = store.add_user(mongo_record("Ada", "ada@example.com")).unwrap();
    let id = created.id.as_ref().unwrap().as_str().to_string();

    let updated = store.update_user(&id, mongo_record("Ada L.", "ada@example.com")).unwrap();
    assert_eq!(updated.name, "Ada L.");
    assert_eq!(updated.email, "ada@example.com");
    assert_eq!(updated.id.as_ref().unwrap().as_str(), id);

    let listed = store.get_users();
    assert_eq!(listed.len(), 1);
    assert_eq!(listed[0].name, "Ada L.");
    assert_ne!(listed[0].name, "Ada");
}

#[test]
fn delete_makes_further_mutations_not_found() {
    let mut store = DocStore::new();
    let created = store.add_user(mongo_record("Ada", "ada@example.com")).unwrap();
    let id = created.id.as_ref().unwrap().as_str().to_string();

    store.delete_user(&id).unwrap();
    assert!(matches!(
        store.update_user(&id, mongo_record("X", "x@example.com")),
        Err(AppError::NotFound(_))
    ));
    assert!(matches!(store.delete_user(&id), Err(AppError::NotFound(_))));
    assert_eq!(store.get_users().len(), 0);
}

#[test]
fn document_crud_round_trip() {
    let mut store = DocStore::new();

    let created = store.add_user(mongo_record("Ada", "ada@example.com")).unwrap();
    assert!(created.id.is_some());
    assert_eq!(created.name, "Ada");
    assert_eq!(created.email, "ada@example.com");
    let id = created.id.as_ref().unwrap().as_str().to_string();

    let listed = store.get_users();
    assert_eq!(listed.len(), 1);
    assert_eq!(listed[0].id.as_ref().unwrap().as_str(), id);

    let updated = store.update_user(&id, mongo_record("Ada L.", "ada@example.com")).unwrap();
    assert_eq!(updated.name, "Ada L.");

    store.delete_user(&id).unwrap();
    assert!(matches!(store.delete_user(&id), Err(AppError::NotFound(_))));
}

#[test]
fn relational_keys_are_serial_and_fresh() {
    let mut store = RelStore::new();
    let first = store.add_user(rel_record("Ada", "ada@example.com"));
    let second = store.add_user(rel_record("Grace", "grace@example.com"));
    assert_eq!(first.id, Some(1));
    assert_eq!(second.id, Some(2));

    let listed = store.get_users();
    assert_eq!(listed.len(), 2);
    assert_eq!(listed[0].name, "Ada");
    assert_eq!(listed[1].name, "Grace");
}

#[test]
fn relational_update_and_delete_report_not_found_when_absent() {
    let mut store = RelStore::new();
    store.add_user(rel_record("Ada", "ada@example.com"));

    assert!(matches!(
        store.update_user(42, rel_record("X", "x@example.com")),
        Err(AppError::NotFound(_))
    ));
    assert!(matches!(store.delete_user(42), Err(AppError::NotFound(_))));
    assert_eq!(store.get_users().len(), 1);
}

#[test]
fn relational_crud_round_trip() {
    let mut store = RelStore::new();
    let created = store.add_user(rel_record("Ada", "ada@example.com"));
    let id = created.id.unwrap();

    let updated = store.update_user(id, rel_record("Ada L.", "ada@example.com")).unwrap();
    assert_eq!(updated.id, Some(id));
    assert_eq!(updated.name, "Ada L.");

    let listed = store.get_users();
    assert_eq!(listed.len(), 1);
    assert_eq!(listed[0].name, "Ada L.");

    store.delete_user(id).unwrap();
    assert!(matches!(store.delete_user(id), Err(AppError::NotFound(_))));
    assert!(matches!(
        store.update_user(id, rel_record("X", "x@example.com")),
        Err(AppError::NotFound(_))
    ));
    assert_eq!(store.get_users().len(), 0);
}
