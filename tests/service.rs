use user_store::service::{
    all, create_user, create_user_with, get_user, UserResponse, STATUS_CREATED, STATUS_NOT_FOUND,
    STATUS_OK,
};
use user_store::store::Store;
use user_store::user::{User, UserRequest};

fn request(name: &str, age: u8) -> UserRequest {
    UserRequest { name: name.to_string(), age }
}

fn payload(r: &UserResponse) -> &User {
    r.payload.as_ref().expect("a success envelope carries a record")
}

#[test]
fn create_answers_201_with_request_fields() {
    let mut store = Store::new();
    let r = create_user(&mut store, request("Ana", 30));
    assert_eq!(r.status, 201);
    assert_eq!(r.status, STATUS_CREATED);
    assert!(r.error.is_none());
    let u = payload(&r);
    assert_eq!(u.name, "Ana");
    assert_eq!(u.age, 30);
}

#[test]
fn created_user_is_listed() {
    let mut store = Store::new();
    let r = create_user(&mut store, request("Ana", 30));
    let created = payload(&r).clone();
    let (status, listed) = all(&store);
    assert_eq!(status, 200);
    assert_eq!(listed.len(), 1);
    let entry = &listed[0];
    assert_eq!(entry.status, STATUS_OK);
    assert!(entry.error.is_none());
    let u = payload(entry);
    assert_eq!(u.id, created.id);
    assert_eq!(u.name, "Ana");
    assert_eq!(u.age, 30);
}

#[test]
fn unknown_key_is_not_found() {
    let store = Store::new();
    let r = get_user(&store, 9999);
    assert_eq!(r.status, 404);
    assert_eq!(r.status, STATUS_NOT_FOUND);
    assert!(r.payload.is_none());
    assert_eq!(r.error.as_deref(), Some("not found"));
}

#[test]
fn unknown_key_beside_stored_one_is_not_found() {
    let mut store = Store::new();
    create_user_with(&mut store, request("Ana", 30), "id-1".to_string(), 1);
    let r = get_user(&store, 2);
    assert_eq!(r.status, 404);
    assert!(r.payload.is_none());
    assert_eq!(r.error.as_deref(), Some("not found"));
}

#[test]
fn empty_store_lists_nothing() {
    let store = Store::new();
    let (status, listed) = all(&store);
    assert_eq!(status, 200);
    assert!(listed.is_empty());
}

#[test]
fn two_creates_answer_independently() {
    let mut store = Store::new();
    let a = create_user(&mut store, request("Ana", 30));
    let b = create_user(&mut store, request("Bo", 7));
    assert_eq!(payload(&a).name, "Ana");
    assert_eq!(payload(&a).age, 30);
    assert_eq!(payload(&b).name, "Bo");
    assert_eq!(payload(&b).age, 7);
    assert_ne!(payload(&a).id, payload(&b).id);
}

#[test]
fn create_with_given_id_and_key() {
    let mut store = Store::new();
    let r = create_user_with(&mut store, request("Ana", 30), "abc".to_string(), 9999);
    assert_eq!(r.status, 201);
    assert!(r.error.is_none());
    let u = payload(&r);
    assert_eq!(u.id, "abc");
    assert_eq!(u.name, "Ana");
    assert_eq!(u.age, 30);

    let g = get_user(&store, 9999);
    assert_eq!(g.status, 200);
    assert!(g.error.is_none());
    let found = payload(&g);
    assert_eq!(found.id, "abc");
    assert_eq!(found.name, "Ana");
    assert_eq!(found.age, 30);
}

#[test]
fn insert_at_taken_key_replaces() {
    let mut store = Store::new();
    create_user_with(&mut store, request("Ana", 30), "first".to_string(), 5);
    create_user_with(&mut store, request("Bo", 40), "second".to_string(), 5);
    let (_, listed) = all(&store);
    assert_eq!(listed.len(), 1);
    let g = get_user(&store, 5);
    let u = payload(&g);
    assert_eq!(u.id, "second");
    assert_eq!(u.name, "Bo");
    assert_eq!(u.age, 40);
}

#[test]
fn extreme_keys_and_ages() {
    let mut store = Store::new();
    create_user_with(&mut store, request("Low", 0), "low".to_string(), 0);
    create_user_with(&mut store, request("High", 255), "high".to_string(), 65535);
    assert_eq!(payload(&get_user(&store, 0)).age, 0);
    assert_eq!(payload(&get_user(&store, 65535)).age, 255);
    assert_eq!(payload(&get_user(&store, 65535)).name, "High");
    let (_, listed) = all(&store);
    assert_eq!(listed.len(), 2);
    let mut ids: Vec<String> = listed.iter().map(|r| payload(r).id.clone()).collect();
    ids.sort();
    assert_eq!(ids, vec!["high".to_string(), "low".to_string()]);
}

#[test]
fn listing_wraps_each_record() {
    let mut store = Store::new();
    create_user_with(&mut store, request("A", 1), "a".to_string(), 10);
    create_user_with(&mut store, request("B", 2), "b".to_string(), 20);
    create_user_with(&mut store, request("C", 3), "c".to_string(), 30);
    let (status, listed) = all(&store);
    assert_eq!(status, 200);
    let mut seen: Vec<(String, String, u8)> = listed
        .iter()
        .map(|r| {
            assert_eq!(r.status, 200);
            assert!(r.error.is_none());
            let u = payload(r);
            (u.id.clone(), u.name.clone(), u.age)
        })
        .collect();
    seen.sort();
    assert_eq!(
        seen,
        vec![
            ("a".to_string(), "A".to_string(), 1),
            ("b".to_string(), "B".to_string(), 2),
            ("c".to_string(), "C".to_string(), 3),
        ]
    );
}

#[test]
fn generated_id_is_hyphenated_uuid() {
    let mut store = Store::new();
    let r = create_user(&mut store, request("Ana", 30));
    let id = &payload(&r).id;
    assert_eq!(id.chars().count(), 36);
    for (i, c) in id.chars().enumerate() {
        if i == 8 || i == 13 || i == 18 || i == 23 {
            assert_eq!(c, '-');
        } else {
            assert!(c.is_ascii_hexdigit() && !c.is_ascii_uppercase());
        }
    }
    assert_eq!(id.chars().nth(14), Some('7'));
}

#[test]
fn generated_ids_are_time_ordered() {
    let mut store = Store::new();
    let a = create_user(&mut store, request("Ana", 30));
    let b = create_user(&mut store, request("Bo", 7));
    assert!(payload(&a).id < payload(&b).id);
}

#[test]
fn store_get_and_list() {
    let mut store = Store::new();
    assert!(store.get(3).is_none());
    store.insert(3, User { id: "x".to_string(), name: "Cy".to_string(), age: 9 });
    let u = store.get(3).expect("stored");
    assert_eq!(u.name, "Cy");
    assert_eq!(store.list().len(), 1);
}
