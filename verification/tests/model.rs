use enroll::config::{AppTheme, Config};
use enroll::error::AppError;
use enroll::finger::Finger;
use enroll::i18n::Translations;
use enroll::message::{short_hash, commit_url, Command, ContextPage, Message, UserOption};
use enroll::model::{AppModel, Controls};
use enroll::status::{EnrollResult, Status};

fn user(name: &str, real: &str) -> UserOption {
    UserOption { username: name.to_string(), realname: real.to_string() }
}

fn ready_model() -> AppModel {
    let users = vec![user("alice", "Alice A"), user("bob", "")];
    let mut m = AppModel::new(users, Some(user("alice", "Alice A")), Translations::new());
    assert!(matches!(m.update(Message::ConnectionReady), Command::FindDevice));
    let c = m.update(Message::DeviceFound(Some("/dev/0".to_string())));
    match c {
        Command::ListFingers { username } => assert_eq!(username, "alice"),
        other => panic!("unexpected {:?}", other),
    }
    m
}

#[test]
fn startup_state() {
    let m = AppModel::new(vec![], None, Translations::new());
    assert!(m.busy);
    assert!(!m.connected);
    assert!(matches!(m.status, Status::Connecting));
    assert_eq!(m.selected_finger, Finger::RightIndex);
    assert_eq!(m.config, Config { app_theme: AppTheme::System, experimental_ui: false });
}

#[test]
fn device_found_and_missing() {
    let m = ready_model();
    assert!(!m.busy);
    assert_eq!(m.device_path.as_deref(), Some("/dev/0"));
    assert!(matches!(m.status, Status::DeviceFound));

    let mut m = AppModel::new(vec![], None, Translations::new());
    let c = m.update(Message::DeviceFound(None));
    assert!(matches!(c, Command::Nothing));
    assert!(m.busy);
    assert!(matches!(m.status, Status::NoDeviceFound));
}

#[test]
fn clear_needs_confirmation() {
    let mut m = ready_model();
    assert!(matches!(m.update(Message::ClearDevice), Command::Nothing));
    assert!(m.confirm_clear);
    match m.update(Message::ClearDevice) {
        Command::ClearDevice { path, usernames } => {
            assert_eq!(path, "/dev/0");
            assert_eq!(usernames, vec!["alice".to_string(), "bob".to_string()]);
        },
        other => panic!("unexpected {:?}", other),
    }
    assert!(m.busy);
    assert!(!m.confirm_clear);
    assert!(matches!(m.status, Status::ClearingDevice));
}

#[test]
fn cancel_drops_confirmation() {
    let mut m = ready_model();
    m.update(Message::ClearDevice);
    m.update(Message::CancelClear);
    assert!(!m.confirm_clear);
    assert!(matches!(m.update(Message::ClearDevice), Command::Nothing));
    assert!(m.confirm_clear);
}

#[test]
fn clear_completion() {
    let mut m = ready_model();
    m.update(Message::EnrolledFingers(vec!["left-thumb".to_string()]));
    m.update(Message::ClearComplete(Ok(())));
    assert!(m.enrolled_fingers.is_empty());
    assert!(!m.busy);
    assert_eq!(m.status.text(), "Every print was removed from the device.");

    let mut m = ready_model();
    m.update(Message::ClearComplete(Err(AppError::PermissionDenied)));
    assert_eq!(m.status.text(), "Permission denied.");
}

#[test]
fn finger_selected_by_name() {
    let mut m = ready_model();
    m.update(Message::FingerSelected(Finger::LeftRing.localized_name()));
    assert_eq!(m.selected_finger, Finger::LeftRing);
    m.update(Message::FingerSelected("no such finger".to_string()));
    assert_eq!(m.selected_finger, Finger::LeftRing);
    m.busy = true;
    m.update(Message::FingerSelected(Finger::RightThumb.localized_name()));
    assert_eq!(m.selected_finger, Finger::LeftRing);
}

#[test]
fn delete_one_and_all() {
    let mut m = ready_model();
    m.update(Message::FingerSelected(Finger::LeftThumb.localized_name()));
    match m.update(Message::Delete) {
        Command::DeletePrint { path, username, finger } => {
            assert_eq!(path, "/dev/0");
            assert_eq!(username, "alice");
            assert_eq!(finger, "left-thumb");
        },
        other => panic!("unexpected {:?}", other),
    }
    assert!(m.busy);
    m.busy = false;
    m.update(Message::FingerSelected(Finger::DeleteAllUsersPrints.localized_name()));
    assert!(matches!(m.update(Message::Delete), Command::DeletePrints { .. }));
}

#[test]
fn delete_complete_updates_list() {
    let mut m = ready_model();
    m.update(Message::EnrolledFingers(vec!["left-thumb".to_string(), "right-thumb".to_string()]));
    m.update(Message::FingerSelected(Finger::LeftThumb.localized_name()));
    assert!(matches!(m.update(Message::Delete), Command::DeletePrint { .. }));
    m.update(Message::DeleteComplete);
    assert_eq!(m.enrolled_fingers, vec!["right-thumb".to_string()]);
    assert!(matches!(m.status, Status::Deleted));
    assert!(!m.busy);

    m.update(Message::FingerSelected(Finger::DeleteAllUsersPrints.localized_name()));
    assert!(matches!(m.update(Message::Delete), Command::DeletePrints { .. }));
    m.update(Message::DeleteComplete);
    assert!(m.enrolled_fingers.is_empty());

    // The default right index finger, enrolled and deleted, leaves the list.
    let mut m = ready_model();
    m.update(Message::EnrolledFingers(vec!["right-index-finger".to_string(), "left-thumb".to_string()]));
    m.update(Message::Delete);
    m.update(Message::DeleteComplete);
    assert_eq!(m.enrolled_fingers, vec!["left-thumb".to_string()]);
}

#[test]
fn enrollment_request_follows_state() {
    let mut m = ready_model();
    assert_eq!(m.enrollment_request(), None);
    m.update(Message::FingerSelected(Finger::LeftPinky.localized_name()));
    m.update(Message::Register);
    assert_eq!(
        m.enrollment_request(),
        Some(("left-little-finger".to_string(), "/dev/0".to_string(), "alice".to_string()))
    );
    m.update(Message::EnrollStatus("enroll-failed".to_string(), true));
    assert_eq!(m.enrollment_request(), None);
}

#[test]
fn enrollment_flow() {
    let mut m = ready_model();
    m.update(Message::FingerSelected(Finger::RightRing.localized_name()));
    m.update(Message::Register);
    assert!(m.busy);
    assert_eq!(m.enrolling_finger.as_deref(), Some("right-ring-finger"));
    m.update(Message::EnrollStart(Some(3)));
    assert_eq!(m.enroll_progress, 0);
    assert_eq!(m.progress(), Some((0, 3)));
    m.update(Message::EnrollStatus("enroll-stage-passed".to_string(), false));
    m.update(Message::EnrollStatus("enroll-retry-scan".to_string(), false));
    m.update(Message::EnrollStatus("enroll-stage-passed".to_string(), false));
    assert_eq!(m.enroll_progress, 2);
    assert!(matches!(m.status, Status::Enroll(EnrollResult::StagePassed)));
    let c = m.update(Message::EnrollStatus("enroll-completed".to_string(), true));
    assert!(matches!(c, Command::ListFingers { .. }));
    assert!(!m.busy);
    assert!(m.enrolling_finger.is_none());
    assert_eq!(m.progress(), None);
}

#[test]
fn unknown_enroll_status_is_shown_as_is() {
    let mut m = ready_model();
    let c = m.update(Message::EnrollStatus("enroll-something".to_string(), true));
    assert!(matches!(c, Command::Nothing));
    assert_eq!(m.status.text(), "enroll-something");
}

#[test]
fn error_ends_enrollment() {
    let mut m = ready_model();
    m.update(Message::Register);
    m.update(Message::OperationError(AppError::Timeout));
    assert!(!m.busy);
    assert!(m.enrolling_finger.is_none());
    assert_eq!(m.status.text(), "Operation timed out.");
}

#[test]
fn controls_follow_state() {
    let mut m = ready_model();
    m.update(Message::FingerSelected(Finger::LeftIndex.localized_name()));
    assert_eq!(m.controls(), Controls { register: true, verify: false, delete: false, cancel: false });
    m.update(Message::EnrolledFingers(vec!["left-index-finger".to_string()]));
    assert_eq!(m.controls(), Controls { register: true, verify: true, delete: true, cancel: false });
    assert!(m.is_enrolled(Finger::LeftIndex));
    assert!(!m.is_enrolled(Finger::LeftThumb));
    m.update(Message::Register);
    assert_eq!(m.controls(), Controls { register: false, verify: false, delete: false, cancel: true });
}

#[test]
fn verify_uses_empty_finger_for_delete_all_page() {
    let mut m = ready_model();
    m.update(Message::FingerSelected(Finger::DeleteAllUsersPrints.localized_name()));
    match m.update(Message::VerifyFinger) {
        Command::VerifyFinger { finger, .. } => assert_eq!(finger, ""),
        other => panic!("unexpected {:?}", other),
    }
    assert!(m.busy);
    m.update(Message::Success);
    assert!(!m.busy);
    assert!(matches!(m.status, Status::Success));
}

#[test]
fn nothing_happens_without_device() {
    let mut m = AppModel::new(vec![user("alice", "")], Some(user("alice", "")), Translations::new());
    assert!(matches!(m.update(Message::Delete), Command::Nothing));
    assert!(matches!(m.update(Message::VerifyFinger), Command::Nothing));
    assert!(matches!(m.update(Message::EnrollStop), Command::Nothing));
}

#[test]
fn enroll_stop_and_links_and_config() {
    let mut m = ready_model();
    match m.update(Message::EnrollStop) {
        Command::EnrollStop { path } => assert_eq!(path, "/dev/0"),
        other => panic!("unexpected {:?}", other),
    }
    assert!(matches!(m.update(Message::OpenRepositoryUrl), Command::OpenRepository));
    match m.update(Message::LaunchUrl("https://example.org".to_string())) {
        Command::OpenUrl(u) => assert_eq!(u, "https://example.org"),
        other => panic!("unexpected {:?}", other),
    }
    let cfg = Config { app_theme: AppTheme::Dark, experimental_ui: true };
    assert!(matches!(m.update(Message::UpdateConfig(cfg)), Command::WriteConfig(c) if c == cfg));
    assert_eq!(m.config, cfg);
}

#[test]
fn context_page_toggles() {
    let mut m = ready_model();
    assert_eq!(m.context_drawer(), None);
    m.update(Message::ToggleContextPage(ContextPage::About));
    assert_eq!(m.context_drawer(), Some(ContextPage::About));
    m.update(Message::ToggleContextPage(ContextPage::About));
    assert_eq!(m.context_drawer(), None);
    m.update(Message::ToggleContextPage(ContextPage::Settings));
    assert_eq!(m.context_drawer(), Some(ContextPage::Settings));
    m.update(Message::ToggleContextPage(ContextPage::Settings));
    assert_eq!(m.context_drawer(), None);
}

#[test]
fn nav_select_picks_last_user_with_label() {
    let users = vec![user("a1", "Same"), user("a2", "Same"), user("b", "")];
    let mut m = AppModel::new(users, None, Translations::new());
    m.busy = false;
    m.confirm_clear = true;
    let c = m.on_nav_select(Some("Same".to_string()));
    assert!(matches!(c, Some(Command::Nothing)));
    assert_eq!(m.selected_user.as_ref().map(|u| u.username.as_str()), Some("a2"));
    assert!(!m.confirm_clear);
    m.on_nav_select(Some("b".to_string()));
    assert_eq!(m.selected_user.as_ref().map(|u| u.username.as_str()), Some("b"));
    m.busy = true;
    assert!(m.on_nav_select(Some("Same".to_string())).is_none());
    assert_eq!(m.selected_user.as_ref().map(|u| u.username.as_str()), Some("b"));
}

#[test]
fn titles_and_about_links() {
    let m = AppModel::new(vec![], None, Translations::new());
    assert_eq!(m.update_title(None), "Enroll");
    assert_eq!(m.update_title(Some("Alice")), "Enroll \u{2014} Alice");
    assert_eq!(short_hash("0123456789abcdef"), "0123456");
    assert_eq!(short_hash("abc"), "abc");
    assert_eq!(commit_url("https://example.org/repo", "abc"), "https://example.org/repo/commits/abc");
}

#[test]
fn user_labels() {
    assert_eq!(user("alice", "Alice A").label(), "Alice A");
    assert_eq!(user("bob", "").label(), "bob");
}

fn finnish() -> Translations {
    let mut t = Translations::new();
    t.insert("page-left-thumb".to_string(), "Vasen peukalo".to_string());
    t.insert("status-device-found".to_string(), "Laite löytyi.".to_string());
    t.insert("app-title".to_string(), "Rekisteröi".to_string());
    t.insert("enroll-completed".to_string(), "Valmis.".to_string());
    t
}

#[test]
fn translated_texts() {
    let t = finnish();
    assert_eq!(Finger::LeftThumb.localized_name_in(&t), "Vasen peukalo");
    assert_eq!(Finger::RightThumb.localized_name_in(&t), "Right thumb");
    assert_eq!(Finger::RightPinky.message_id(), "page-right-little-finger");
    assert_eq!(Finger::DeleteAllUsersPrints.message_id(), "page-delete-all-users-prints");
    assert_eq!(Status::DeviceFound.text_in(&t), "Laite löytyi.");
    assert_eq!(Status::Enroll(EnrollResult::Completed).text_in(&t), "Valmis.");
    assert_eq!(Status::Deleted.text_in(&t), "Deleted.");
    assert_eq!(Status::Reported("x".to_string()).text_in(&t), "x");
    assert_eq!(Status::Error(AppError::Timeout).text_in(&t), "Operation timed out.");
}

#[test]
fn later_translation_replaces_earlier() {
    let mut t = Translations::new();
    t.insert("deleted".to_string(), "A".to_string());
    t.insert("deleted".to_string(), "B".to_string());
    assert_eq!(t.text("deleted", "Deleted."), "B");
    assert_eq!(t.text("other", "fallback"), "fallback");
}

#[test]
fn selection_uses_active_language() {
    let users = vec![user("alice", "")];
    let mut m = AppModel::new(users, Some(user("alice", "")), finnish());
    m.busy = false;
    m.update(Message::FingerSelected("Vasen peukalo".to_string()));
    assert_eq!(m.selected_finger, Finger::LeftThumb);
    m.update(Message::FingerSelected(Finger::RightRing.localized_name()));
    assert_eq!(m.selected_finger, Finger::RightRing);
    assert_eq!(m.update_title(Some("alice")), "Rekisteröi \u{2014} alice");
}
