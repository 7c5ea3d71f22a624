use vstd::prelude::*;
use crate::finger::{Finger, finger_id, lemma_finger_name_injective, page_name};
use crate::message::{Command, Message, UserOption};
use crate::model::{
    AppModel, controls_of, enrolled, finger_named, list_fingers_command, on_cancel_clear_post,
    on_clear_completion_post, on_clear_device_post, on_clicked_link_post, on_connection_ready_post,
    on_context_page_toggle_post, on_delete_complete_post, on_delete_post, on_device_found_post,
    on_enroll_start_post, on_enroll_status_post, on_enroll_stop_post, on_error_post,
    on_finger_selected_post, on_fingers_listed_post, on_open_link_post, on_register_post,
    on_success_post, on_update_config_post, on_verify_finger_post, update_post, without,
};
use crate::status::{EnrollResult, enroll_result_of};

verus! {

/// Clearing the device needs confirmation: a clear request in a state that
/// is not waiting for confirmation only asks for it; a second request then
/// deletes the prints of every user, when a device was found and the bus is
/// connected.
pub proof fn lemma_clear_needs_confirmation(
    s: AppModel,
    t: AppModel,
    c: Command,
    u: AppModel,
    d: Command,
)
    requires
        !s.confirm_clear,
        update_post(s, Message::ClearDevice, t, c),
        update_post(t, Message::ClearDevice, u, d),
    ensures
        c == Command::Nothing,
        t.confirm_clear,
        s.device_path is Some && s.connected ==> {
            &&& d matches Command::ClearDevice { path, usernames }
            &&& path == s.device_path->0
            &&& usernames@ == s.users@.map_values(|x: UserOption| x.username)
            &&& u.busy
            &&& !u.confirm_clear
        },
        !(s.device_path is Some && s.connected) ==> d == Command::Nothing,
{
}

/// Cancelling drops the confirmation: a clear request after a cancel only
/// asks for confirmation again.
pub proof fn lemma_cancel_requires_new_confirmation(
    s: AppModel,
    t: AppModel,
    c: Command,
    u: AppModel,
    d: Command,
)
    requires
        update_post(s, Message::CancelClear, t, c),
        update_post(t, Message::ClearDevice, u, d),
    ensures
        d == Command::Nothing,
        u.confirm_clear,
{
}

/// Starting work on the device makes the application busy: a message that
/// asks to verify, delete or clear leaves a busy state.
pub proof fn lemma_device_work_makes_busy(s: AppModel, m: Message, t: AppModel, c: Command)
    requires
        update_post(s, m, t, c),
        c is VerifyFinger || c is DeletePrint || c is DeletePrints || c is ClearDevice,
    ensures
        t.busy,
{
}

/// The end of device work makes the application idle: a verification
/// success, an error, a finished clear or deletion, and a finished enrollment.
pub proof fn lemma_completion_makes_idle(s: AppModel, m: Message, t: AppModel, c: Command)
    requires
        update_post(s, m, t, c),
        m is Success || m is OperationError || m is ClearComplete || m is DeleteComplete || (
        m matches Message::EnrollStatus(_, done) && done),
    ensures
        !t.busy,
        m is OperationError || m is EnrollStatus ==> t.enrolling_finger is None,
{
}

/// The pages have distinct shown names in the active language.
pub open spec fn page_names_distinct(entries: Seq<(String, String)>) -> bool {
    forall|a: Finger, b: Finger| page_name(entries, a) == page_name(entries, b) ==> a == b
}

/// Without translations the pages have distinct shown names.
pub proof fn lemma_untranslated_names_distinct()
    ensures
        page_names_distinct(Seq::empty()),
{
    assert forall|a: Finger, b: Finger|
        page_name(Seq::empty(), a) == page_name(Seq::empty(), b) implies a == b by {
        lemma_finger_name_injective(a, b);
    }
}

/// The page found by a shown name has that name.
pub proof fn lemma_finger_named_sound(entries: Seq<(String, String)>, name: Seq<char>)
    ensures
        finger_named(entries, name) matches Some(g) ==> page_name(entries, g) == name,
{
}

/// Looking up a page by its shown name finds that page, when the shown names
/// are distinct.
pub proof fn lemma_finger_named_finds(entries: Seq<(String, String)>, f: Finger)
    requires
        page_names_distinct(entries),
    ensures
        finger_named(entries, page_name(entries, f)) == Some(f),
{
    let n = page_name(entries, f);
    assert(finger_named(entries, n) is Some) by {
        match f {
            Finger::RightThumb => {},
            Finger::RightIndex => {},
            Finger::RightMiddle => {},
            Finger::RightRing => {},
            Finger::RightPinky => {},
            Finger::LeftThumb => {},
            Finger::LeftIndex => {},
            Finger::LeftMiddle => {},
            Finger::LeftRing => {},
            Finger::LeftPinky => {},
            Finger::DeleteAllUsersPrints => {},
        }
    }
    lemma_finger_named_sound(entries, n);
}

/// Choosing a finger by the name it is shown under in the active language
/// chooses that finger, unless the application is busy, when the pages'
/// shown names are distinct (as they are without translations).
pub proof fn lemma_select_by_shown_name(s: AppModel, f: Finger, name: String, t: AppModel, c: Command)
    requires
        name@ == page_name(s.translations.entries@, f),
        page_names_distinct(s.translations.entries@),
        update_post(s, Message::FingerSelected(name), t, c),
    ensures
        !s.busy ==> t.selected_finger == f,
        s.busy ==> t == s,
{
    lemma_finger_named_finds(s.translations.entries@, f);
}

/// A button is pressable only when its action makes sense: nothing but
/// cancel while busy, without a device or while enrolling; registering needs
/// a finger; verifying and deleting need an enrolled print of the chosen
/// finger (any print, on the page that deletes every print); cancel only
/// while enrolling.
pub proof fn lemma_controls_guarded(m: AppModel)
    ensures
        ({
            let k = controls_of(m);
            &&& (k.register || k.verify || k.delete) ==> !m.busy && m.device_path is Some
                && m.enrolling_finger is None
            &&& k.register ==> finger_id(m.selected_finger) is Some
            &&& (k.verify || k.delete) ==> match finger_id(m.selected_finger) {
                Some(id) => enrolled(m.enrolled_fingers@, id),
                None => m.enrolled_fingers@.len() > 0,
            }
            &&& k.cancel <==> m.enrolling_finger is Some
        }),
{
}

/// After a deletion of the chosen finger's print completes, that finger is
/// no longer listed as enrolled, and every other enrolled finger still is;
/// after a deletion on the page that deletes every print, nothing is listed.
pub proof fn lemma_deleted_finger_not_enrolled(s: AppModel, t: AppModel, c: Command)
    requires
        update_post(s, Message::DeleteComplete, t, c),
    ensures
        match finger_id(s.selected_finger) {
            Some(id) => {
                &&& !enrolled(t.enrolled_fingers@, id)
                &&& forall|other: Seq<char>|
                    other != id && enrolled(s.enrolled_fingers@, other) ==> enrolled(t.enrolled_fingers@, other)
            },
            None => !exists|other: Seq<char>| enrolled(t.enrolled_fingers@, other),
        },
{
    if let Some(id) = finger_id(s.selected_finger) {
        let f = s.enrolled_fingers@;
        let w = without(f, id);
        broadcast use vstd::seq_lib::group_filter_ensures;
        assert(w == t.enrolled_fingers@);
        assert forall|other: Seq<char>| other != id && enrolled(f, other) implies enrolled(w, other) by {
            let i = choose|i: int| 0 <= i < f.len() && #[trigger] f[i]@ == other;
            assert(w.contains(f[i]));
            let j = choose|j: int| 0 <= j < w.len() && w[j] == f[i];
            assert(w[j]@ == other);
        }
    }
}

/// Handling a message has exactly the effect and the result of that
/// message's handler.
pub proof fn lemma_update_is_handler(s: AppModel, m: Message, t: AppModel, c: Command)
    ensures
        update_post(s, m, t, c) == match m {
            Message::ConnectionReady => on_connection_ready_post(s, t, c),
            Message::FingerSelected(finger) => on_finger_selected_post(s, finger, t, c),
            Message::DeviceFound(device_path) => on_device_found_post(s, device_path, t, c),
            Message::EnrolledFingers(fingers) => on_fingers_listed_post(s, fingers, t, c),
            Message::OperationError(err) => on_error_post(s, err, t, c),
            Message::EnrollStart(total) => on_enroll_start_post(s, total, t, c),
            Message::EnrollStatus(status, done) => on_enroll_status_post(s, status, done, t, c),
            Message::EnrollStop => on_enroll_stop_post(s, t, c),
            Message::DeleteComplete => on_delete_complete_post(s, t, c),
            Message::Delete => on_delete_post(s, t, c),
            Message::ClearDevice => on_clear_device_post(s, t, c),
            Message::CancelClear => on_cancel_clear_post(s, t, c),
            Message::ClearComplete(res) => on_clear_completion_post(s, res, t, c),
            Message::Register => on_register_post(s, t, c),
            Message::OpenRepositoryUrl => on_clicked_link_post(s, t, c),
            Message::ToggleContextPage(page) => on_context_page_toggle_post(s, page, t, c),
            Message::UpdateConfig(config) => on_update_config_post(s, config, t, c),
            Message::LaunchUrl(url) => on_open_link_post(s, url, t, c),
            Message::Success => on_success_post(s, t, c),
            Message::VerifyFinger => on_verify_finger_post(s, t, c),
        },
{
}

/// A completed enrollment lists the user's prints again, so the new print
/// shows up, when a device was found and a user is chosen.
pub proof fn lemma_completed_enrollment_relists(s: AppModel, status: String, t: AppModel, c: Command)
    requires
        enroll_result_of(status@) == Some(EnrollResult::Completed),
        update_post(s, Message::EnrollStatus(status, true), t, c),
    ensures
        c == list_fingers_command(t),
        s.device_path is Some && s.selected_user is Some ==> c == (Command::ListFingers {
            username: s.selected_user->0.username,
        }),
{
}


/// An enrollment starts with no stage passed: once its start is announced,
/// the progress is zero whatever it was before, the total is the announced
/// number of stages, and the finger being enrolled stays the same.
pub proof fn lemma_enroll_start_resets_progress(s: AppModel, total: Option<u32>, t: AppModel, c: Command)
    requires
        update_post(s, Message::EnrollStart(total), t, c),
    ensures
        t.enroll_progress == 0,
        t.enroll_total_stages == total,
        t.enrolling_finger == s.enrolling_finger,
        c == Command::Nothing,
{
}

/// Verifying asks the device to verify the chosen finger of the chosen user:
/// the command names the device, the user, and the daemon name of the chosen
/// finger (nothing on the page that deletes every print), when a device was
/// found, the bus is connected and a user is chosen.
pub proof fn lemma_verify_sends_chosen_finger(s: AppModel, t: AppModel, c: Command)
    requires
        update_post(s, Message::VerifyFinger, t, c),
        s.device_path is Some,
        s.connected,
        s.selected_user is Some,
    ensures
        c matches Command::VerifyFinger { path, username, finger } && {
            &&& path == s.device_path->0
            &&& username == s.selected_user->0.username
            &&& finger_id(s.selected_finger) matches Some(id) ==> finger@ == id
            &&& finger_id(s.selected_finger) is None ==> finger@.len() == 0
        },
        t.busy,
{
}

/// In an idle state with a device and no enrollment running, verifying and
/// deleting can be pressed exactly when the chosen finger has an enrolled
/// print (on the page that deletes every print: when any print is
/// enrolled), registering exactly when a finger is chosen, and cancel never.
pub proof fn lemma_controls_available(m: AppModel)
    requires
        !m.busy,
        m.device_path is Some,
        m.enrolling_finger is None,
    ensures
        ({
            let k = controls_of(m);
            let fingers = m.enrolled_fingers@;
            &&& k.verify == k.delete
            &&& k.delete <==> match finger_id(m.selected_finger) {
                Some(id) => exists|i: int| 0 <= i < fingers.len() && #[trigger] fingers[i]@ == id,
                None => fingers.len() > 0,
            }
            &&& k.register <==> finger_id(m.selected_finger) is Some
            &&& !k.cancel
        }),
{
}

} // verus!
