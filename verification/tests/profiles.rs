//! Tests of the saved profiles.
use transonic::models::auth::AuthKind;
use transonic::models::session::LastConnectionState;
use transonic::profiles::{ProfilesFile, StoredProfileMetadata};

fn profile(id: &str, auth_kind: AuthKind) -> StoredProfileMetadata {
    StoredProfileMetadata {
        profile_id: id.to_string(),
        display_name: id.to_uppercase(),
        normalized_server_url: format!("https://{id}.example/rest"),
        auth_kind,
        username: id.to_string(),
        last_connection_state: LastConnectionState::Never,
        last_capability_snapshot: None,
        last_server_info: None,
        last_connected_at: None,
        is_last_active: false,
    }
}

#[test]
fn set_last_active_only_marks_the_selected_profile() {
    let mut profiles = ProfilesFile {
        version: 1,
        profiles: vec![
            StoredProfileMetadata {
                profile_id: "one".to_string(),
                display_name: "One".to_string(),
                normalized_server_url: "https://one.example/rest".to_string(),
                auth_kind: AuthKind::Password,
                username: "one".to_string(),
                last_connection_state: LastConnectionState::Never,
                last_capability_snapshot: None,
                last_server_info: None,
                last_connected_at: None,
                is_last_active: false,
            },
            StoredProfileMetadata {
                profile_id: "two".to_string(),
                display_name: "Two".to_string(),
                normalized_server_url: "https://two.example/rest".to_string(),
                auth_kind: AuthKind::ApiKey,
                username: "two".to_string(),
                last_connection_state: LastConnectionState::Never,
                last_capability_snapshot: None,
                last_server_info: None,
                last_connected_at: None,
                is_last_active: false,
            },
        ],
    };

    profiles.set_last_active(Some("two"));

    assert!(!profiles.profiles[0].is_last_active);
    assert!(profiles.profiles[1].is_last_active);
}

#[test]
fn upsert_replaces_a_saved_profile_and_appends_a_new_one() {
    let mut profiles = ProfilesFile::default();
    profiles.upsert_profile(profile("one", AuthKind::Password));
    profiles.upsert_profile(profile("two", AuthKind::ApiKey));
    let mut renamed = profile("one", AuthKind::ApiKey);
    renamed.display_name = "Renamed".to_string();
    profiles.upsert_profile(renamed);

    assert_eq!(profiles.profiles.len(), 2);
    assert_eq!(profiles.find_profile("one").unwrap().display_name, "Renamed");
    assert_eq!(profiles.find_profile("two").unwrap().auth_kind, AuthKind::ApiKey);
    assert!(profiles.find_profile("three").is_none());
}

#[test]
fn remove_profile_forgets_only_that_profile() {
    let mut profiles = ProfilesFile::default();
    profiles.upsert_profile(profile("one", AuthKind::Password));
    profiles.upsert_profile(profile("two", AuthKind::Password));
    profiles.remove_profile("one");

    assert!(profiles.find_profile("one").is_none());
    assert_eq!(profiles.profiles.len(), 1);
    assert_eq!(profiles.profiles[0].profile_id, "two");
}

#[test]
fn find_profile_mut_changes_the_saved_profile() {
    let mut profiles = ProfilesFile::default();
    profiles.upsert_profile(profile("one", AuthKind::Password));
    profiles.find_profile_mut("one").unwrap().last_connected_at = Some(42);
    assert!(profiles.find_profile_mut("two").is_none());

    assert_eq!(profiles.profiles[0].last_connected_at, Some(42));
}

#[test]
fn summaries_follow_the_saved_profiles() {
    let mut profiles = ProfilesFile::default();
    profiles.upsert_profile(profile("one", AuthKind::Password));
    profiles.upsert_profile(profile("two", AuthKind::ApiKey));
    profiles.set_last_active(Some("one"));

    let summaries = profiles.summaries();

    assert_eq!(summaries.len(), 2);
    assert_eq!(summaries[0].profile_id, "one");
    assert!(summaries[0].is_active);
    assert!(!summaries[1].is_active);
    assert_eq!(summaries[1].auth_kind, AuthKind::ApiKey);
    assert_eq!(ProfilesFile::default().version, 1);
}
