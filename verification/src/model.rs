use vstd::prelude::*;
use vstd::string::StringExecFns;
use crate::config::Config;
use crate::error::AppError;
use crate::finger::{Finger, finger_id, page_name};
use crate::i18n::{Translations, lookup};
use crate::message::{Command, ContextPage, Message, UserOption, user_label};
use crate::status::{EnrollResult, Status, enroll_result_of};

verus! {

/// The state of the application: everything its decisions depend on.
///
/// The device path is present exactly when a fingerprint device was found
/// (the device proxy kept beside it lives with the caller); `connected` says
/// whether the system bus connection is ready.
pub struct AppModel {
    /// The context page that the drawer shows.
    pub context_page: ContextPage,
    /// Whether the context drawer is open.
    pub show_context: bool,
    /// Settings that persist between runs.
    pub config: Config,
    /// The status line.
    pub status: Status,
    /// Object path of the fingerprint device, once found.
    pub device_path: Option<String>,
    /// Whether the connection to the system bus is ready.
    pub connected: bool,
    /// Whether an operation is in progress.
    pub busy: bool,
    /// The daemon name of the finger being enrolled, while one is.
    pub enrolling_finger: Option<String>,
    /// Enrollment stages passed so far.
    pub enroll_progress: u32,
    /// Number of enrollment stages, when the device reports it.
    pub enroll_total_stages: Option<u32>,
    /// The users that can be chosen.
    pub users: Vec<UserOption>,
    /// The chosen user.
    pub selected_user: Option<UserOption>,
    /// The chosen finger.
    pub selected_finger: Finger,
    /// Daemon names of the chosen user's enrolled fingers.
    pub enrolled_fingers: Vec<String>,
    /// Whether clearing the device waits for confirmation.
    pub confirm_clear: bool,
    /// The texts of the active language.
    pub translations: Translations,
}

/// The buttons that can be pressed.
#[derive(Clone, Copy, Debug, PartialEq, Eq, Structural)]
pub struct Controls {
    pub register: bool,
    pub verify: bool,
    pub delete: bool,
    /// The cancel button is shown, and can be pressed, while enrolling.
    pub cancel: bool,
}

/// The work that lists the chosen user's prints: there is one when a device
/// was found and a user is chosen.
pub open spec fn list_fingers_command(m: AppModel) -> Command {
    if m.device_path is Some && m.selected_user is Some {
        Command::ListFingers { username: m.selected_user->0.username }
    } else {
        Command::Nothing
    }
}

/// The page whose shown name in the active language is `name`, looked up in
/// the order of `Finger::all`.
pub open spec fn finger_named(entries: Seq<(String, String)>, name: Seq<char>) -> Option<Finger> {
    if name == page_name(entries, Finger::RightThumb) {
        Some(Finger::RightThumb)
    } else if name == page_name(entries, Finger::RightIndex) {
        Some(Finger::RightIndex)
    } else if name == page_name(entries, Finger::RightMiddle) {
        Some(Finger::RightMiddle)
    } else if name == page_name(entries, Finger::RightRing) {
        Some(Finger::RightRing)
    } else if name == page_name(entries, Finger::RightPinky) {
        Some(Finger::RightPinky)
    } else if name == page_name(entries, Finger::LeftThumb) {
        Some(Finger::LeftThumb)
    } else if name == page_name(entries, Finger::LeftIndex) {
        Some(Finger::LeftIndex)
    } else if name == page_name(entries, Finger::LeftMiddle) {
        Some(Finger::LeftMiddle)
    } else if name == page_name(entries, Finger::LeftRing) {
        Some(Finger::LeftRing)
    } else if name == page_name(entries, Finger::LeftPinky) {
        Some(Finger::LeftPinky)
    } else if name == page_name(entries, Finger::DeleteAllUsersPrints) {
        Some(Finger::DeleteAllUsersPrints)
    } else {
        None
    }
}

/// The last user in `users` whose label is `label`.
pub open spec fn last_labelled(users: Seq<UserOption>, label: Seq<char>) -> Option<UserOption>
    decreases users.len(),
{
    if users.len() == 0 {
        None
    } else if user_label(users.last()) == label {
        Some(users.last())
    } else {
        last_labelled(users.drop_last(), label)
    }
}

/// The user that `last_labelled` finds is a user of the list with that
/// label, and no user after it has the label; it finds one whenever some
/// user has the label.
pub proof fn lemma_last_labelled(users: Seq<UserOption>, label: Seq<char>)
    ensures
        last_labelled(users, label) matches Some(u) ==> exists|i: int|
            0 <= i < users.len() && #[trigger] users[i] == u && user_label(u) == label && forall|j: int|
                i < j < users.len() ==> user_label(#[trigger] users[j]) != label,
        (exists|i: int| 0 <= i < users.len() && user_label(#[trigger] users[i]) == label) ==> last_labelled(
            users,
            label,
        ) is Some,
    decreases users.len(),
{
    if users.len() > 0 {
        let p = users.drop_last();
        lemma_last_labelled(p, label);
        if user_label(users.last()) == label {
            assert(users[users.len() - 1] == users.last());
        } else {
            if let Some(u) = last_labelled(p, label) {
                let i = choose|i: int|
                    0 <= i < p.len() && #[trigger] p[i] == u && user_label(u) == label && forall|j: int|
                        i < j < p.len() ==> user_label(#[trigger] p[j]) != label;
                assert(users[i] == u);
                assert forall|j: int| i < j < users.len() implies user_label(#[trigger] users[j]) != label by {
                    if j < p.len() {
                        assert(users[j] == p[j]);
                    }
                }
            }
            if exists|i: int| 0 <= i < users.len() && user_label(#[trigger] users[i]) == label {
                let i = choose|i: int| 0 <= i < users.len() && user_label(#[trigger] users[i]) == label;
                assert(i < p.len());
                assert(p[i] == users[i]);
            }
        }
    }
}

/// Whether `id` is among the enrolled fingers.
pub open spec fn enrolled(fingers: Seq<String>, id: Seq<char>) -> bool {
    exists|i: int| 0 <= i < fingers.len() && #[trigger] fingers[i]@ == id
}

/// The enrolled fingers without `id`.
pub open spec fn without(fingers: Seq<String>, id: Seq<char>) -> Seq<String> {
    fingers.filter(|e: String| e@ != id)
}

/// The application's name in the active language.
pub open spec fn app_title(entries: Seq<(String, String)>) -> Seq<char> {
    lookup(entries, "app-title"@, "Enroll"@)
}

/// The buttons that can be pressed in a state: registering, verifying and
/// deleting need an idle state with a device and no enrollment; registering
/// needs a finger, verifying and deleting need the finger to be enrolled (or,
/// for the page that deletes every print, any finger to be enrolled).
pub open spec fn controls_of(m: AppModel) -> Controls {
    let enabled = !m.busy && m.device_path is Some && m.enrolling_finger is None;
    let is_enrolled = match finger_id(m.selected_finger) {
        Some(id) => enrolled(m.enrolled_fingers@, id),
        None => m.enrolled_fingers@.len() > 0,
    };
    Controls {
        register: enabled && finger_id(m.selected_finger) is Some,
        verify: enabled && is_enrolled,
        delete: enabled && is_enrolled,
        cancel: m.enrolling_finger is Some,
    }
}

/// Whether a daemon result string says that an enrollment stage passed.
pub open spec fn is_stage_passed(s: Seq<char>) -> bool {
    enroll_result_of(s) == Some(EnrollResult::StagePassed)
}

/// The state after a daemon enrollment result is shown (before `done` is
/// taken into account): known results are shown by their text, others as
/// they are, and a passed stage counts one more stage.
pub open spec fn after_enroll_result(s: AppModel, result: String) -> AppModel {
    AppModel {
        status: match enroll_result_of(result@) {
            Some(r) => Status::Enroll(r),
            None => Status::Reported(result),
        },
        enroll_progress: if is_stage_passed(result@) {
            (s.enroll_progress + 1) as u32
        } else {
            s.enroll_progress
        },
        ..s
    }
}

/// The first page of `Finger::all` whose name is `name` is the one that
/// `finger_named` gives.
proof fn lemma_first_named(entries: Seq<(String, String)>, name: Seq<char>, i: int)
    requires
        0 <= i < 11,
        page_name(entries, crate::finger::all_fingers()[i]) == name,
        forall|j: int| 0 <= j < i ==> page_name(entries, #[trigger] crate::finger::all_fingers()[j]) != name,
    ensures
        finger_named(entries, name) == Some(crate::finger::all_fingers()[i]),
{
    let a = crate::finger::all_fingers();
    assert(a[0] == Finger::RightThumb);
    assert(a[1] == Finger::RightIndex);
    assert(a[2] == Finger::RightMiddle);
    assert(a[3] == Finger::RightRing);
    assert(a[4] == Finger::RightPinky);
    assert(a[5] == Finger::LeftThumb);
    assert(a[6] == Finger::LeftIndex);
    assert(a[7] == Finger::LeftMiddle);
    assert(a[8] == Finger::LeftRing);
    assert(a[9] == Finger::LeftPinky);
    assert(a[10] == Finger::DeleteAllUsersPrints);
}

/// When no page of `Finger::all` has the name, `finger_named` gives none.
proof fn lemma_none_named(entries: Seq<(String, String)>, name: Seq<char>)
    requires
        forall|j: int| 0 <= j < 11 ==> page_name(entries, #[trigger] crate::finger::all_fingers()[j]) != name,
    ensures
        finger_named(entries, name) is None,
{
    let a = crate::finger::all_fingers();
    assert(page_name(entries, a[0]) != name);
    assert(page_name(entries, a[1]) != name);
    assert(page_name(entries, a[2]) != name);
    assert(page_name(entries, a[3]) != name);
    assert(page_name(entries, a[4]) != name);
    assert(page_name(entries, a[5]) != name);
    assert(page_name(entries, a[6]) != name);
    assert(page_name(entries, a[7]) != name);
    assert(page_name(entries, a[8]) != name);
    assert(page_name(entries, a[9]) != name);
    assert(page_name(entries, a[10]) != name);
}

/// Clearing is no longer waiting for confirmation.
pub open spec fn on_cancel_clear_post(s: AppModel, t: AppModel, c: Command) -> bool {
    t == (AppModel { confirm_clear: false, ..s }) && c == Command::Nothing
}

/// Clearing the device ended: on success every listed print is gone; on
/// failure the error is shown. Either way the application is idle.
pub open spec fn on_clear_completion_post(s: AppModel, res: Result<(), AppError>, t: AppModel, c: Command) -> bool {
    c == Command::Nothing && match res {
        Ok(()) => {
            &&& t == (AppModel {
                status: Status::DeviceCleared,
                busy: false,
                enrolled_fingers: t.enrolled_fingers,
                ..s
            })
            &&& t.enrolled_fingers@.len() == 0
        },
        Err(e) => t == (AppModel { status: Status::Error(e), busy: false, ..s }),
    }
}

/// The repository link was clicked: open it.
pub open spec fn on_clicked_link_post(s: AppModel, t: AppModel, c: Command) -> bool {
    t == s && c == Command::OpenRepository
}

/// The bus connection is ready: look up the device.
pub open spec fn on_connection_ready_post(s: AppModel, t: AppModel, c: Command) -> bool {
    t == (AppModel { connected: true, status: Status::SearchingDevice, ..s }) && c == Command::FindDevice
}

/// A context page is toggled: the page that is shown closes or opens the
/// drawer; another page is shown in an open drawer.
pub open spec fn on_context_page_toggle_post(s: AppModel, page: ContextPage, t: AppModel, c: Command) -> bool {
    c == Command::Nothing && if s.context_page == page {
        t == (AppModel { show_context: !s.show_context, ..s })
    } else {
        t == (AppModel { context_page: page, show_context: true, ..s })
    }
}

/// An operation failed: the error is shown, any enrollment ends, the
/// application becomes idle.
pub open spec fn on_error_post(s: AppModel, err: AppError, t: AppModel, c: Command) -> bool {
    t == (AppModel { status: Status::Error(err), busy: false, enrolling_finger: None, ..s })
        && c == Command::Nothing
}

/// The chosen user's enrolled fingers were listed.
pub open spec fn on_fingers_listed_post(s: AppModel, fingers: Vec<String>, t: AppModel, c: Command) -> bool {
    t == (AppModel { enrolled_fingers: fingers, ..s }) && c == Command::Nothing
}

/// A finger is chosen by its shown name: ignored while busy; otherwise the
/// clearing confirmation is dropped and the page with that name, if any,
/// becomes the chosen finger.
pub open spec fn on_finger_selected_post(s: AppModel, finger: String, t: AppModel, c: Command) -> bool {
    c == Command::Nothing && if s.busy {
        t == s
    } else {
        t == (AppModel {
            confirm_clear: false,
            selected_finger: match finger_named(s.translations.entries@, finger@) {
                Some(f) => f,
                None => s.selected_finger,
            },
            ..s
        })
    }
}

/// The device lookup ended: a found device makes the application idle and
/// lists the chosen user's prints; without one it stays busy.
pub open spec fn on_device_found_post(s: AppModel, device_path: Option<String>, t: AppModel, c: Command) -> bool {
    match device_path {
        Some(p) => t == (AppModel {
            device_path: Some(p),
            status: Status::DeviceFound,
            busy: false,
            ..s
        }) && c == list_fingers_command(t),
        None => t == (AppModel { device_path: None, status: Status::NoDeviceFound, busy: true, ..s })
            && c == Command::Nothing,
    }
}

/// Verifying the chosen finger of the chosen user, when a device was found
/// and the bus is connected, makes the application busy; the page that
/// deletes every print is verified with an empty finger name.
pub open spec fn on_verify_finger_post(s: AppModel, t: AppModel, c: Command) -> bool {
    if s.device_path is Some && s.connected && s.selected_user is Some {
        &&& t == (AppModel { busy: true, ..s })
        &&& c matches Command::VerifyFinger { path, username, finger }
        &&& path == s.device_path->0
        &&& username == s.selected_user->0.username
        &&& finger@ == finger_arg(s.selected_finger)
    } else {
        t == s && c == Command::Nothing
    }
}

/// A verification succeeded.
pub open spec fn on_success_post(s: AppModel, t: AppModel, c: Command) -> bool {
    t == (AppModel { status: Status::Success, busy: false, ..s }) && c == Command::Nothing
}

/// An enrollment started, with the number of stages if the device gives it.
pub open spec fn on_enroll_start_post(s: AppModel, total: Option<u32>, t: AppModel, c: Command) -> bool {
    t == (AppModel {
        enroll_total_stages: total,
        enroll_progress: 0,
        status: Status::EnrollStarting,
        ..s
    }) && c == Command::Nothing
}

/// The daemon reported an enrollment result: it is shown, a passed stage
/// counts, a finished enrollment makes the application idle, and a completed
/// one lists the user's prints again.
pub open spec fn on_enroll_status_post(s: AppModel, status: String, done: bool, t: AppModel, c: Command) -> bool {
    if done {
        &&& t == (AppModel { busy: false, enrolling_finger: None, ..after_enroll_result(s, status) })
        &&& c == if enroll_result_of(status@) == Some(EnrollResult::Completed) {
            list_fingers_command(t)
        } else {
            Command::Nothing
        }
    } else {
        t == after_enroll_result(s, status) && c == Command::Nothing
    }
}

/// Stopping the running enrollment, when a device was found and the bus is connected.
pub open spec fn on_enroll_stop_post(s: AppModel, t: AppModel, c: Command) -> bool {
    t == s && if s.device_path is Some && s.connected {
        c == (Command::EnrollStop { path: s.device_path->0 })
    } else {
        c == Command::Nothing
    }
}

/// Clearing the device takes two requests: the first only asks for
/// confirmation; a confirmed one, when a device was found and the bus is
/// connected, deletes the prints of every user and makes the application busy.
pub open spec fn on_clear_device_post(s: AppModel, t: AppModel, c: Command) -> bool {
    if !s.confirm_clear {
        t == (AppModel { confirm_clear: true, ..s }) && c == Command::Nothing
    } else if s.device_path is Some && s.connected {
        &&& t == (AppModel { status: Status::ClearingDevice, busy: true, confirm_clear: false, ..s })
        &&& c matches Command::ClearDevice { path, usernames }
        &&& path == s.device_path->0
        &&& usernames@ == s.users@.map_values(|u: UserOption| u.username)
    } else {
        t == s && c == Command::Nothing
    }
}

/// Deleting the chosen finger's print of the chosen user (every print of the
/// user on the page that deletes every print), when a device was found and
/// the bus is connected, makes the application busy.
pub open spec fn on_delete_post(s: AppModel, t: AppModel, c: Command) -> bool {
    if s.device_path is Some && s.connected && s.selected_user is Some {
        &&& t == (AppModel { status: Status::Deleting, busy: true, ..s })
        &&& match finger_id(s.selected_finger) {
            Some(id) => {
                &&& c matches Command::DeletePrint { path, username, finger }
                &&& path == s.device_path->0
                &&& username == s.selected_user->0.username
                &&& finger@ == id
            },
            None => c == (Command::DeletePrints {
                path: s.device_path->0,
                username: s.selected_user->0.username,
            }),
        }
    } else {
        t == s && c == Command::Nothing
    }
}

/// A deletion ended: the application becomes idle, and the deleted prints
/// leave the enrolled list: the chosen finger's, or, on the page that deletes
/// every print, all of them.
pub open spec fn on_delete_complete_post(s: AppModel, t: AppModel, c: Command) -> bool {
    &&& c == Command::Nothing
    &&& t == (AppModel {
        status: Status::Deleted,
        busy: false,
        enrolled_fingers: t.enrolled_fingers,
        ..s
    })
    &&& match finger_id(s.selected_finger) {
        Some(id) => t.enrolled_fingers@ == without(s.enrolled_fingers@, id),
        None => t.enrolled_fingers@.len() == 0,
    }
}

/// A link is opened.
pub open spec fn on_open_link_post(s: AppModel, url: String, t: AppModel, c: Command) -> bool {
    t == s && c == Command::OpenUrl(url)
}

/// Registering starts: the application becomes busy, and the chosen finger,
/// if it is a finger, becomes the one being enrolled.
pub open spec fn on_register_post(s: AppModel, t: AppModel, c: Command) -> bool {
    &&& c == Command::Nothing
    &&& t == (AppModel {
        busy: true,
        enrolling_finger: t.enrolling_finger,
        status: Status::StartingEnrollment,
        ..s
    })
    &&& match finger_id(s.selected_finger) {
        Some(id) => t.enrolling_finger is Some && t.enrolling_finger->0@ == id,
        None => t.enrolling_finger == s.enrolling_finger,
    }
}

/// New settings are kept and saved.
pub open spec fn on_update_config_post(s: AppModel, config: Config, t: AppModel, c: Command) -> bool {
    t == (AppModel { config: config, ..s }) && c == Command::WriteConfig(config)
}

/// What a message does to the state and which work it asks for: exactly
/// what its handler does.
pub open spec fn update_post(s: AppModel, message: Message, t: AppModel, c: Command) -> bool {
    match message {
        Message::ConnectionReady => on_connection_ready_post(s, t, c),
        Message::FingerSelected(finger) => on_finger_selected_post(s, finger, t, c),
        Message::DeviceFound(device_path) => on_device_found_post(s, device_path, t, c),
        Message::EnrolledFingers(fingers) => on_fingers_listed_post(s, fingers, t, c),
        Message::OperationError(err) => on_error_post(s, err, t, c),
        Message::EnrollStart(total) => on_enroll_start_post(s, total, t, c),
        Message::EnrollStatus(status, done) => on_enroll_status_post(s, status, done, t, c),
        Message::EnrollStop => on_enroll_stop_post(s, t, c),
        Message::DeleteComplete => on_delete_complete_post(s, t, c),
        Message::Delete => on_delete_post(s, t, c),
        Message::ClearDevice => on_clear_device_post(s, t, c),
        Message::CancelClear => on_cancel_clear_post(s, t, c),
        Message::ClearComplete(res) => on_clear_completion_post(s, res, t, c),
        Message::Register => on_register_post(s, t, c),
        Message::OpenRepositoryUrl => on_clicked_link_post(s, t, c),
        Message::ToggleContextPage(page) => on_context_page_toggle_post(s, page, t, c),
        Message::UpdateConfig(config) => on_update_config_post(s, config, t, c),
        Message::LaunchUrl(url) => on_open_link_post(s, url, t, c),
        Message::Success => on_success_post(s, t, c),
        Message::VerifyFinger => on_verify_finger_post(s, t, c),
    }
}

impl AppModel {
    /// The state when the application starts: connecting, busy, nothing found
    /// yet, with the texts of the active language.
    pub fn new(users: Vec<UserOption>, selected_user: Option<UserOption>, translations: Translations) -> (m: AppModel)
        ensures
            m.context_page == ContextPage::About,
            !m.show_context,
            m.config == (Config { app_theme: crate::config::AppTheme::System, experimental_ui: false }),
            m.status == Status::Connecting,
            m.device_path is None,
            !m.connected,
            m.busy,
            m.enrolling_finger is None,
            m.enroll_progress == 0,
            m.enroll_total_stages is None,
            m.users == users,
            m.selected_user == selected_user,
            m.selected_finger == Finger::RightIndex,
            m.enrolled_fingers@.len() == 0,
            !m.confirm_clear,
            m.translations == translations,
    {
        AppModel {
            context_page: ContextPage::About,
            show_context: false,
            config: Config::default(),
            status: Status::Connecting,
            device_path: None,
            connected: false,
            busy: true,
            enrolling_finger: None,
            enroll_progress: 0,
            enroll_total_stages: None,
            users,
            selected_user,
            selected_finger: Finger::RightIndex,
            enrolled_fingers: Vec::new(),
            confirm_clear: false,
            translations,
        }
    }

    /// The work that lists the chosen user's prints, if there is one.
    pub fn list_fingers_task(&self) -> (c: Command)
        ensures
            c == list_fingers_command(*self),
    {
        match (&self.device_path, &self.selected_user) {
            (Some(_), Some(user)) => Command::ListFingers { username: user.username.clone() },
            _ => Command::Nothing,
        }
    }

    /// Clearing is no longer waiting for confirmation.
    pub fn on_cancel_clear(&mut self) -> (c: Command)
        ensures
            on_cancel_clear_post(*old(self), *final(self), c),
    {
        self.confirm_clear = false;
        Command::Nothing
    }

    /// Clearing the device ended: on success every listed print is gone;
    /// on failure the error is shown. Either way the application is idle.
    pub fn on_clear_completion(&mut self, res: Result<(), AppError>) -> (c: Command)
        ensures
            on_clear_completion_post(*old(self), res, *final(self), c),
    {
        match res {
            Ok(()) => {
                self.status = Status::DeviceCleared;
                self.enrolled_fingers = Vec::new();
            },
            Err(e) => {
                self.status = Status::Error(e);
            },
        }
        self.busy = false;
        Command::Nothing
    }

    /// The repository link was clicked: open it.
    pub fn on_clicked_link(&mut self) -> (c: Command)
        ensures
            on_clicked_link_post(*old(self), *final(self), c),
    {
        Command::OpenRepository
    }

    /// The bus connection is ready: look up the device.
    pub fn on_connection_ready(&mut self) -> (c: Command)
        ensures
            on_connection_ready_post(*old(self), *final(self), c),
    {
        self.connected = true;
        self.status = Status::SearchingDevice;
        Command::FindDevice
    }

    /// Toggles a context page: the page that is shown closes or opens the
    /// drawer; another page is shown in an open drawer.
    pub fn on_context_page_toggle(&mut self, context_page: ContextPage) -> (c: Command)
        ensures
            on_context_page_toggle_post(*old(self), context_page, *final(self), c),
    {
        if self.context_page == context_page {
            self.show_context = !self.show_context;
        } else {
            self.context_page = context_page;
            self.show_context = true;
        }
        Command::Nothing
    }

    /// An operation failed: show the error, end any enrollment, become idle.
    pub fn on_error(&mut self, err: AppError) -> (c: Command)
        ensures
            on_error_post(*old(self), err, *final(self), c),
    {
        self.status = Status::Error(err);
        self.busy = false;
        self.enrolling_finger = None;
        Command::Nothing
    }

    /// The chosen user's enrolled fingers were listed.
    pub fn on_fingers_listed(&mut self, fingers: Vec<String>) -> (c: Command)
        ensures
            on_fingers_listed_post(*old(self), fingers, *final(self), c),
    {
        self.enrolled_fingers = fingers;
        Command::Nothing
    }

    /// A finger was chosen by its shown name. Ignored while busy; otherwise
    /// the clearing confirmation is dropped and the page with that name, if
    /// any, becomes the chosen finger.
    pub fn on_finger_selected(&mut self, finger: String) -> (c: Command)
        ensures
            on_finger_selected_post(*old(self), finger, *final(self), c),
    {
        if self.busy {
            return Command::Nothing;
        }
        self.confirm_clear = false;
        let pages = Finger::all();
        let mut i: usize = 0;
        while i < pages.len()
            invariant
                pages@ == crate::finger::all_fingers(),
                i <= pages@.len(),
                forall|j: int| 0 <= j < i ==> page_name(self.translations.entries@, #[trigger] pages@[j]) != finger@,
                !old(self).busy,
                *self == (AppModel { confirm_clear: false, ..*old(self) }),
            decreases pages@.len() - i,
        {
            let page = pages[i];
            if page.localized_name_in(&self.translations) == finger {
                proof {
                    lemma_first_named(self.translations.entries@, finger@, i as int);
                }
                self.selected_finger = page;
                return Command::Nothing;
            }
            i = i + 1;
        }
        proof {
            lemma_none_named(self.translations.entries@, finger@);
        }
        Command::Nothing
    }

    /// The device lookup ended. A found device makes the application idle and
    /// lists the chosen user's prints; without one it stays busy.
    pub fn on_device_found(&mut self, device_path: Option<String>) -> (c: Command)
        ensures
            on_device_found_post(*old(self), device_path, *final(self), c),
    {
        match device_path {
            Some(p) => {
                self.device_path = Some(p);
                self.status = Status::DeviceFound;
                self.busy = false;
                self.list_fingers_task()
            },
            None => {
                self.device_path = None;
                self.status = Status::NoDeviceFound;
                self.busy = true;
                Command::Nothing
            },
        }
    }

    /// Verifies the chosen finger of the chosen user, when a device was found
    /// and the bus is connected; the application becomes busy. The page that
    /// deletes every print is verified with an empty finger name.
    pub fn on_verify_finger(&mut self) -> (c: Command)
        ensures
            on_verify_finger_post(*old(self), *final(self), c),
    {
        if let (Some(path), true, Some(user)) = (&self.device_path, self.connected, &self.selected_user) {
            let path = path.clone();
            let username = user.username.clone();
            let finger = match self.selected_finger.as_finger_id() {
                Some(id) => id.to_owned(),
                None => String::new(),
            };
            self.busy = true;
            return Command::VerifyFinger { path, username, finger };
        }
        Command::Nothing
    }

    /// A verification succeeded.
    pub fn on_success(&mut self) -> (c: Command)
        ensures
            on_success_post(*old(self), *final(self), c),
    {
        self.status = Status::Success;
        self.busy = false;
        Command::Nothing
    }

    /// An enrollment started, with the number of stages if the device gives it.
    pub fn on_enroll_start(&mut self, total: Option<u32>) -> (c: Command)
        ensures
            on_enroll_start_post(*old(self), total, *final(self), c),
    {
        self.enroll_total_stages = total;
        self.enroll_progress = 0;
        self.status = Status::EnrollStarting;
        Command::Nothing
    }

    /// The daemon reported an enrollment result. It is shown; a passed stage
    /// counts; when the enrollment is done the application becomes idle, and a
    /// completed enrollment lists the user's prints again.
    pub fn on_enroll_status(&mut self, status: String, done: bool) -> (c: Command)
        requires
            is_stage_passed(status@) ==> old(self).enroll_progress < u32::MAX,
        ensures
            on_enroll_status_post(*old(self), status, done, *final(self), c),
    {
        let kind = EnrollResult::from_daemon(&status);
        match kind {
            Some(EnrollResult::StagePassed) => {
                self.enroll_progress = self.enroll_progress + 1;
            },
            _ => {},
        }
        let completed = match kind {
            Some(EnrollResult::Completed) => true,
            _ => false,
        };
        self.status = match kind {
            Some(r) => Status::Enroll(r),
            None => Status::Reported(status),
        };
        if done {
            self.busy = false;
            self.enrolling_finger = None;
            if completed {
                return self.list_fingers_task();
            }
        }
        Command::Nothing
    }

    /// Stops the running enrollment, when a device was found and the bus is connected.
    pub fn on_enroll_stop(&self) -> (c: Command)
        ensures
            on_enroll_stop_post(*self, *self, c),
    {
        if let (Some(path), true) = (&self.device_path, self.connected) {
            return Command::EnrollStop { path: path.clone() };
        }
        Command::Nothing
    }

    /// Clearing the device takes two requests: the first one only asks for
    /// confirmation; a confirmed one, when a device was found and the bus is
    /// connected, deletes the prints of every user and makes the application busy.
    pub fn on_clear_device(&mut self) -> (c: Command)
        ensures
            on_clear_device_post(*old(self), *final(self), c),
    {
        if !self.confirm_clear {
            self.confirm_clear = true;
            return Command::Nothing;
        }
        if let (Some(path), true) = (&self.device_path, self.connected) {
            let path = path.clone();
            let mut usernames: Vec<String> = Vec::new();
            let mut i: usize = 0;
            while i < self.users.len()
                invariant
                    i <= self.users@.len(),
                    usernames@ == self.users@.take(i as int).map_values(|u: UserOption| u.username),
                decreases self.users@.len() - i,
            {
                usernames.push(self.users[i].username.clone());
                assert(self.users@.take(i + 1) == self.users@.take(i as int).push(self.users@[i as int]));
                i = i + 1;
            }
            assert(self.users@.take(i as int) == self.users@);
            self.status = Status::ClearingDevice;
            self.busy = true;
            self.confirm_clear = false;
            return Command::ClearDevice { path, usernames };
        }
        Command::Nothing
    }

    /// Deletes the chosen finger's print of the chosen user, or every print of
    /// the user on the page that deletes every print, when a device was found
    /// and the bus is connected; the application becomes busy.
    pub fn on_delete(&mut self) -> (c: Command)
        ensures
            on_delete_post(*old(self), *final(self), c),
    {
        if let (Some(path), true, Some(user)) = (&self.device_path, self.connected, &self.selected_user) {
            let path = path.clone();
            let username = user.username.clone();
            self.status = Status::Deleting;
            self.busy = true;
            return match self.selected_finger.as_finger_id() {
                Some(id) => Command::DeletePrint { path, username, finger: id.to_owned() },
                None => Command::DeletePrints { path, username },
            };
        }
        Command::Nothing
    }

    /// A deletion ended: the application becomes idle, and the deleted prints
    /// leave the enrolled list: the chosen finger's, or, on the page that
    /// deletes every print, all of them.
    pub fn on_delete_complete(&mut self) -> (c: Command)
        ensures
            on_delete_complete_post(*old(self), *final(self), c),
    {
        self.status = Status::Deleted;
        self.busy = false;
        match self.selected_finger.as_finger_id() {
            Some(id) => {
                let kept = retain_other(&self.enrolled_fingers, id);
                self.enrolled_fingers = kept;
            },
            None => {
                self.enrolled_fingers = Vec::new();
            },
        }
        Command::Nothing
    }

    /// Opens a link.
    pub fn on_open_link(&mut self, url: String) -> (c: Command)
        ensures
            on_open_link_post(*old(self), url, *final(self), c),
    {
        Command::OpenUrl(url)
    }

    /// Registering starts: the application becomes busy, and the chosen finger,
    /// if it is a finger, becomes the one being enrolled.
    pub fn on_register(&mut self) -> (c: Command)
        ensures
            on_register_post(*old(self), *final(self), c),
    {
        self.busy = true;
        if let Some(id) = self.selected_finger.as_finger_id() {
            self.enrolling_finger = Some(id.to_owned());
        }
        self.status = Status::StartingEnrollment;
        Command::Nothing
    }

    /// New settings: keep them and save them.
    pub fn on_update_config(&mut self, config: Config) -> (c: Command)
        ensures
            on_update_config_post(*old(self), config, *final(self), c),
    {
        self.config = config;
        Command::WriteConfig(config)
    }
}

/// Whether a message can be handled: counting one more passed enrollment
/// stage must not overflow the counter.
pub open spec fn update_allowed(s: AppModel, message: Message) -> bool {
    match message {
        Message::EnrollStatus(status, _) => is_stage_passed(status@) ==> s.enroll_progress < u32::MAX,
        _ => true,
    }
}

impl AppModel {
    /// Handles a message: changes the state and says which work to start.
    pub fn update(&mut self, message: Message) -> (c: Command)
        requires
            update_allowed(*old(self), message),
        ensures
            update_post(*old(self), message, *final(self), c),
    {
        match message {
            Message::ConnectionReady => self.on_connection_ready(),
            Message::FingerSelected(finger) => self.on_finger_selected(finger),
            Message::DeviceFound(path) => self.on_device_found(path),
            Message::EnrolledFingers(fingers) => self.on_fingers_listed(fingers),
            Message::OperationError(err) => self.on_error(err),
            Message::EnrollStart(total) => self.on_enroll_start(total),
            Message::EnrollStatus(status, done) => self.on_enroll_status(status, done),
            Message::EnrollStop => self.on_enroll_stop(),
            Message::DeleteComplete => self.on_delete_complete(),
            Message::Delete => self.on_delete(),
            Message::ClearDevice => self.on_clear_device(),
            Message::CancelClear => self.on_cancel_clear(),
            Message::ClearComplete(res) => self.on_clear_completion(res),
            Message::Register => self.on_register(),
            Message::OpenRepositoryUrl => self.on_clicked_link(),
            Message::ToggleContextPage(page) => self.on_context_page_toggle(page),
            Message::UpdateConfig(config) => self.on_update_config(config),
            Message::LaunchUrl(url) => self.on_open_link(url),
            Message::Success => self.on_success(),
            Message::VerifyFinger => self.on_verify_finger(),
        }
    }

    /// A navigation item was chosen, given by its label. Ignored while busy
    /// (`None`: nothing is activated). Otherwise the clearing confirmation is
    /// dropped, the last user with that label becomes the chosen user, and the
    /// work that lists the chosen user's prints is returned.
    pub fn on_nav_select(&mut self, label: Option<String>) -> (c: Option<Command>)
        ensures
            if old(self).busy {
                *final(self) == *old(self) && c is None
            } else {
                &&& *final(self) == (AppModel {
                    confirm_clear: false,
                    selected_user: match label {
                        Some(l) => match last_labelled(old(self).users@, l@) {
                            Some(u) => Some(u),
                            None => old(self).selected_user,
                        },
                        None => old(self).selected_user,
                    },
                    ..*old(self)
                })
                &&& c == Some(list_fingers_command(*final(self)))
            },
            !old(self).busy && label is Some && (exists|i: int|
                0 <= i < old(self).users@.len() && user_label(#[trigger] old(self).users@[i]) == label->0@)
                ==> (final(self).selected_user matches Some(u) && user_label(u) == label->0@
                && old(self).users@.contains(u)),
    {
        proof {
            if label is Some {
                lemma_last_labelled(self.users@, label->0@);
            }
        }
        if self.busy {
            return None;
        }
        self.confirm_clear = false;
        if let Some(l) = &label {
            let mut found: Option<UserOption> = None;
            let mut i: usize = 0;
            while i < self.users.len()
                invariant
                    i <= self.users@.len(),
                    found == last_labelled(self.users@.take(i as int), l@),
                decreases self.users@.len() - i,
            {
                let text = self.users[i].label();
                proof {
                    let p = self.users@.take(i + 1);
                    assert(p.drop_last() == self.users@.take(i as int));
                    assert(p.last() == self.users@[i as int]);
                }
                if text == *l {
                    found = Some(self.users[i].clone());
                }
                i = i + 1;
            }
            assert(self.users@.take(i as int) == self.users@);
            if let Some(u) = found {
                self.selected_user = Some(u);
            }
        }
        Some(self.list_fingers_task())
    }

    /// The enrollment to run, as finger, device path and user name: one is
    /// asked for while a finger is being enrolled, a device was found, the bus
    /// is connected and a user is chosen.
    pub fn enrollment_request(&self) -> (r: Option<(String, String, String)>)
        ensures
            r is Some <==> (self.enrolling_finger is Some && self.device_path is Some && self.connected
                && self.selected_user is Some),
            r matches Some((f, p, u)) ==> f == self.enrolling_finger->0 && p == self.device_path->0
                && u == self.selected_user->0.username,
    {
        match (&self.enrolling_finger, &self.device_path, self.connected, &self.selected_user) {
            (Some(f), Some(p), true, Some(u)) => Some((f.clone(), p.clone(), u.username.clone())),
            _ => None,
        }
    }

    /// The buttons that can be pressed.
    pub fn controls(&self) -> (c: Controls)
        ensures
            c == controls_of(*self),
    {
        let enabled = !self.busy && self.device_path.is_some() && self.enrolling_finger.is_none();
        let current = self.selected_finger.as_finger_id();
        let is_enrolled = match current {
            Some(id) => contains_text(&self.enrolled_fingers, id),
            None => self.enrolled_fingers.len() > 0,
        };
        Controls {
            register: enabled && current.is_some(),
            verify: enabled && is_enrolled,
            delete: enabled && is_enrolled,
            cancel: self.enrolling_finger.is_some(),
        }
    }

    /// Whether a finger has an enrolled print (the page that deletes every
    /// print never has).
    pub fn is_enrolled(&self, finger: Finger) -> (r: bool)
        ensures
            r == match finger_id(finger) {
                Some(id) => enrolled(self.enrolled_fingers@, id),
                None => false,
            },
    {
        match finger.as_finger_id() {
            Some(id) => contains_text(&self.enrolled_fingers, id),
            None => false,
        }
    }

    /// The progress of an enrollment, as stages passed and total stages,
    /// while a finger is being enrolled and the total is known.
    pub fn progress(&self) -> (p: Option<(u32, u32)>)
        ensures
            p == if self.enrolling_finger is Some && self.enroll_total_stages is Some {
                Some((self.enroll_progress, self.enroll_total_stages->0))
            } else {
                None
            },
    {
        if self.enrolling_finger.is_none() {
            return None;
        }
        match self.enroll_total_stages {
            Some(total) => Some((self.enroll_progress, total)),
            None => None,
        }
    }

    /// The page that the context drawer shows, when it is open.
    pub fn context_drawer(&self) -> (p: Option<ContextPage>)
        ensures
            p == if self.show_context { Some(self.context_page) } else { None },
    {
        if self.show_context {
            Some(self.context_page)
        } else {
            None
        }
    }

    /// The window title: the application's name in the active language (the
    /// message `app-title`, in English "Enroll"), followed by the active
    /// navigation item's label when there is one.
    pub fn update_title(&self, nav_label: Option<&str>) -> (t: String)
        ensures
            t@ == match nav_label {
                Some(l) => app_title(self.translations.entries@) + " \u{2014} "@ + l@,
                None => app_title(self.translations.entries@),
            },
    {
        let mut t = self.translations.text("app-title", "Enroll");
        if let Some(l) = nav_label {
            t.append(" \u{2014} ");
            t.append(l);
        }
        t
    }
}

/// Whether `id` is among `fingers`.
fn contains_text(fingers: &Vec<String>, id: &str) -> (r: bool)
    ensures
        r == enrolled(fingers@, id@),
{
    let mut i: usize = 0;
    while i < fingers.len()
        invariant
            i <= fingers@.len(),
            forall|j: int| 0 <= j < i ==> (#[trigger] fingers@[j])@ != id@,
        decreases fingers@.len() - i,
    {
        if crate::error::same_text(&fingers[i], id) {
            return true;
        }
        i = i + 1;
    }
    false
}

/// The daemon name given for a page when a finger is verified: its finger
/// name, or nothing for the page that deletes every print.
pub open spec fn finger_arg(f: Finger) -> Seq<char> {
    match finger_id(f) {
        Some(id) => id,
        None => Seq::empty(),
    }
}

/// The fingers of `fingers` other than `id`, in order.
fn retain_other(fingers: &Vec<String>, id: &str) -> (r: Vec<String>)
    ensures
        r@ == without(fingers@, id@),
{
    let mut r: Vec<String> = Vec::new();
    let mut i: usize = 0;
    while i < fingers.len()
        invariant
            i <= fingers@.len(),
            r@ == without(fingers@.take(i as int), id@),
        decreases fingers@.len() - i,
    {
        let f = &fingers[i];
        proof {
            reveal(Seq::filter);
            assert(fingers@.take(i + 1).drop_last() == fingers@.take(i as int));
            assert(fingers@.take(i + 1).last() == fingers@[i as int]);
        }
        if !crate::error::same_text(f, id) {
            r.push(f.clone());
        }
        i = i + 1;
    }
    assert(fingers@.take(i as int) == fingers@);
    r
}


} // verus!
