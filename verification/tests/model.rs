use automod::model::Authentication;
use automod::model::ClientError;
use automod::model::Person;
use automod::model::is_admin;
use automod::notify::notification_plan;

fn person(id: i32, name: &str, instance: &str, is_local: bool) -> Person {
    Person {
        id,
        name: String::from(name),
        instance: String::from(instance),
        url: format!("https://{instance}/u/{name}"),
        is_local,
    }
}

#[test]
fn authentication_construction() {
    let auth = Authentication::new(String::from("token"), 42);
    assert_eq!(auth.jwt, "token");
    assert_eq!(auth.user_id, 42);
    let empty = Authentication::empty();
    assert_eq!(empty.jwt, "");
    assert_eq!(empty.user_id, -1);
}

#[test]
fn client_error_construction() {
    let e = ClientError::new("/api/v3/site", String::from("timeout"));
    assert_eq!(e.path, "/api/v3/site");
    assert_eq!(e.message, "timeout");
}

#[test]
fn admin_lookup_is_by_id() {
    let admins = vec![
        person(50, "admin", "local.example", true),
        person(51, "admin2", "local.example", true),
    ];
    assert!(is_admin(&admins, 50));
    assert!(is_admin(&admins, 51));
    assert!(!is_admin(&admins, 3));
    assert!(!is_admin(&Vec::new(), 50));
}

#[test]
fn notification_plan_pairs_every_recipient_with_the_body() {
    let recipients = vec![
        person(50, "admin", "local.example", true),
        person(51, "admin2", "local.example", true),
        person(52, "admin3", "local.example", true),
    ];
    let notes = notification_plan(&recipients, &String::from("hello"));
    assert_eq!(notes.len(), 3);
    for (n, p) in notes.iter().zip(recipients.iter()) {
        assert_eq!(n.recipient_id, p.id);
        assert_eq!(n.body, "hello");
    }
    assert!(notification_plan(&Vec::new(), &String::from("hello")).is_empty());
}

#[test]
fn person_clone_is_exact() {
    let p = person(3, "alice", "local.example", true);
    let q = p.clone();
    assert_eq!(q.id, 3);
    assert_eq!(q.name, "alice");
    assert_eq!(q.instance, "local.example");
    assert_eq!(q.url, "https://local.example/u/alice");
    assert!(q.is_local);
}
