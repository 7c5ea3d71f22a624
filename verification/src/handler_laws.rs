use vstd::prelude::*;
use crate::config::Config;
use crate::error::AppError;
use crate::finger::finger_id;
use crate::message::{Command, ContextPage, Message};
use crate::model::{AppModel, update_allowed, update_post};
use crate::status::{EnrollResult, Status, enroll_result_of};

verus! {

/// A reported enrollment result is shown and counted: a passed stage adds
/// exactly one to the progress and any other result leaves it; a known
/// result is shown as that result and any other string as it is; a result
/// that says the enrollment is done makes the application idle and ends the
/// enrollment, one that does not leaves both as they were; only a completed
/// enrollment asks for more work. (The counter must have room for one more
/// stage, as `AppModel::update` requires.)
pub proof fn lemma_enroll_status_shown_and_counted(s: AppModel, status: String, done: bool, t: AppModel, c: Command)
    requires
        update_allowed(s, Message::EnrollStatus(status, done)),
        update_post(s, Message::EnrollStatus(status, done), t, c),
    ensures
        enroll_result_of(status@) == Some(EnrollResult::StagePassed) ==> t.enroll_progress == s.enroll_progress + 1,
        enroll_result_of(status@) != Some(EnrollResult::StagePassed) ==> t.enroll_progress == s.enroll_progress,
        t.enroll_total_stages == s.enroll_total_stages,
        enroll_result_of(status@) matches Some(r) ==> t.status == Status::Enroll(r),
        enroll_result_of(status@) is None ==> t.status == Status::Reported(status),
        done ==> !t.busy && t.enrolling_finger is None,
        !done ==> t.busy == s.busy && t.enrolling_finger == s.enrolling_finger,
        !(done && enroll_result_of(status@) == Some(EnrollResult::Completed)) ==> c == Command::Nothing,
{
}

/// Deleting deletes the chosen print of the chosen user on the found device:
/// the chosen finger's print, or every print of the user on the page that
/// deletes every print; the application becomes busy. Without a device, a
/// connection or a user nothing happens.
pub proof fn lemma_delete_targets_choice(s: AppModel, t: AppModel, c: Command)
    requires
        update_post(s, Message::Delete, t, c),
    ensures
        s.device_path is Some && s.connected && s.selected_user is Some ==> {
            &&& t.busy
            &&& t.status == Status::Deleting
            &&& t.enrolled_fingers == s.enrolled_fingers
            &&& match finger_id(s.selected_finger) {
                Some(id) => c matches Command::DeletePrint { path, username, finger } && {
                    &&& path == s.device_path->0
                    &&& username == s.selected_user->0.username
                    &&& finger@ == id
                },
                None => c matches Command::DeletePrints { path, username } && {
                    &&& path == s.device_path->0
                    &&& username == s.selected_user->0.username
                },
            }
        },
        !(s.device_path is Some && s.connected && s.selected_user is Some) ==> t == s && c == Command::Nothing,
{
}

/// Registering makes the application busy and, when a finger is chosen,
/// makes that finger the one being enrolled; it asks for no work itself.
pub proof fn lemma_register_enrolls_choice(s: AppModel, t: AppModel, c: Command)
    requires
        update_post(s, Message::Register, t, c),
    ensures
        t.busy,
        t.status == Status::StartingEnrollment,
        finger_id(s.selected_finger) matches Some(id) ==> t.enrolling_finger matches Some(f) && f@ == id,
        finger_id(s.selected_finger) is None ==> t.enrolling_finger == s.enrolling_finger,
        c == Command::Nothing,
{
}

/// A found device is kept, makes the application idle and lists the chosen
/// user's prints (when a user is chosen); when none is found the
/// application has no device and stays busy.
pub proof fn lemma_device_found_lists(s: AppModel, device_path: Option<String>, t: AppModel, c: Command)
    requires
        update_post(s, Message::DeviceFound(device_path), t, c),
    ensures
        t.device_path == device_path,
        device_path is Some ==> {
            &&& !t.busy
            &&& t.status == Status::DeviceFound
            &&& s.selected_user matches Some(u) ==> c == (Command::ListFingers { username: u.username })
            &&& s.selected_user is None ==> c == Command::Nothing
        },
        device_path is None ==> t.busy && t.status == Status::NoDeviceFound && c == Command::Nothing,
{
}

/// A ready connection is kept and the device is looked up.
pub proof fn lemma_connection_ready_finds_device(s: AppModel, t: AppModel, c: Command)
    requires
        update_post(s, Message::ConnectionReady, t, c),
    ensures
        t.connected,
        t.status == Status::SearchingDevice,
        c == Command::FindDevice,
{
}

/// A finished clear shows its outcome and makes the application idle: on
/// success no print is listed any more; on failure the error is shown and
/// the list stays.
pub proof fn lemma_clear_outcome_shown(s: AppModel, res: Result<(), AppError>, t: AppModel, c: Command)
    requires
        update_post(s, Message::ClearComplete(res), t, c),
    ensures
        !t.busy,
        c == Command::Nothing,
        res is Ok ==> t.enrolled_fingers@.len() == 0 && t.status == Status::DeviceCleared,
        res matches Err(e) ==> t.status == Status::Error(e) && t.enrolled_fingers == s.enrolled_fingers,
{
}

/// An error is shown, ends any enrollment and makes the application idle;
/// a verification success is shown and makes it idle.
pub proof fn lemma_outcomes_shown(s: AppModel, m: Message, t: AppModel, c: Command)
    requires
        update_post(s, m, t, c),
        m is OperationError || m is Success,
    ensures
        !t.busy,
        c == Command::Nothing,
        m matches Message::OperationError(e) ==> t.status == Status::Error(e) && t.enrolling_finger is None,
        m is Success ==> t.status == Status::Success && t.enrolling_finger == s.enrolling_finger,
{
}

/// Stopping an enrollment changes nothing in the state and asks the found
/// device to stop, when there is one and the bus is connected.
pub proof fn lemma_enroll_stop_asks_device(s: AppModel, t: AppModel, c: Command)
    requires
        update_post(s, Message::EnrollStop, t, c),
    ensures
        t == s,
        s.device_path is Some && s.connected ==> c == (Command::EnrollStop { path: s.device_path->0 }),
        !(s.device_path is Some && s.connected) ==> c == Command::Nothing,
{
}

/// Toggling a context page shows that page; toggling the page that is
/// shown closes or opens the drawer, so toggling it twice leaves the drawer
/// as it was, and toggling another page opens the drawer.
pub proof fn lemma_toggle_context_page(s: AppModel, p: ContextPage, t: AppModel, c: Command, u: AppModel, d: Command)
    requires
        update_post(s, Message::ToggleContextPage(p), t, c),
        update_post(t, Message::ToggleContextPage(p), u, d),
    ensures
        t.context_page == p,
        s.context_page == p ==> t.show_context == !s.show_context && u.show_context == s.show_context,
        s.context_page != p ==> t.show_context && !u.show_context,
        c == Command::Nothing,
{
}

/// New settings are kept, and exactly those are saved.
pub proof fn lemma_config_saved(s: AppModel, config: Config, t: AppModel, c: Command)
    requires
        update_post(s, Message::UpdateConfig(config), t, c),
    ensures
        t.config == config,
        c == Command::WriteConfig(config),
{
}

/// What messages leave alone: no message changes the users, the chosen
/// user or the texts; only choosing a finger changes the chosen finger; only
/// a device lookup changes the device; only a listing, a finished deletion or
/// a finished clear changes the enrolled fingers; only new settings change
/// the settings; only clear requests, cancelling and choosing a finger change
/// the pending confirmation; only registering, an error or an enrollment
/// result changes the finger being enrolled.
pub proof fn lemma_messages_frame(s: AppModel, m: Message, t: AppModel, c: Command)
    requires
        update_post(s, m, t, c),
    ensures
        t.users == s.users,
        t.selected_user == s.selected_user,
        t.translations == s.translations,
        !(m is FingerSelected) ==> t.selected_finger == s.selected_finger,
        !(m is DeviceFound) ==> t.device_path == s.device_path,
        !(m is EnrolledFingers || m is DeleteComplete || m is ClearComplete) ==> t.enrolled_fingers
            == s.enrolled_fingers,
        !(m is UpdateConfig) ==> t.config == s.config,
        !(m is ClearDevice || m is CancelClear || m is FingerSelected) ==> t.confirm_clear == s.confirm_clear,
        !(m is Register || m is OperationError || m is EnrollStatus) ==> t.enrolling_finger == s.enrolling_finger,
{
}

/// Choosing a finger while idle drops a pending request to clear the
/// device, so the next clear request asks for confirmation again.
pub proof fn lemma_selection_drops_confirmation(s: AppModel, finger: String, t: AppModel, c: Command)
    requires
        !s.busy,
        update_post(s, Message::FingerSelected(finger), t, c),
    ensures
        !t.confirm_clear,
        c == Command::Nothing,
{
}

} // verus!
