use rdm::models::{IssueStatus, User};

#[test]
fn status_splits_into_its_pair() {
    let status = IssueStatus::new(3, "Resolved".to_string());
    assert_eq!(status.id, 3);
    assert_eq!(status.name, "Resolved");
    assert_eq!(status.into_pair(), (3, "Resolved".to_string()));
}

#[test]
fn status_copy_is_equal() {
    let status = IssueStatus::new(u32::MAX, String::new());
    assert_eq!(status.clone(), status);
}

#[test]
fn user_keeps_its_fields() {
    let user = User::new(8, "rz".to_string(), "Renato".to_string(), "Z".to_string());
    assert_eq!(user.id, 8);
    assert_eq!(user.login, "rz");
    assert_eq!(user.firstname, "Renato");
    assert_eq!(user.lastname, "Z");
    assert_eq!(user.clone(), user);
}
