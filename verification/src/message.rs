use vstd::prelude::*;
use vstd::string::StringExecFns;
use vstd::string::StrSliceExecFns;
use crate::config::Config;
use crate::error::AppError;

verus! {

/// The context page shown in the context drawer.
#[derive(Clone, Copy, Debug, PartialEq, Eq, Structural)]
pub enum ContextPage {
    About,
    Settings,
}

/// The entries of the application's menu.
#[derive(Clone, Copy, Debug, PartialEq, Eq, Structural)]
pub enum MenuAction {
    About,
    Settings,
}

impl MenuAction {
    /// The message that a menu entry sends: it toggles its context page.
    pub fn message(&self) -> (m: Message)
        ensures
            m == match self {
                MenuAction::About => Message::ToggleContextPage(ContextPage::About),
                MenuAction::Settings => Message::ToggleContextPage(ContextPage::Settings),
            },
    {
        match self {
            MenuAction::About => Message::ToggleContextPage(ContextPage::About),
            MenuAction::Settings => Message::ToggleContextPage(ContextPage::Settings),
        }
    }
}

/// A user whose prints can be managed.
#[derive(Debug)]
pub struct UserOption {
    /// The login name.
    pub username: String,
    /// The full name; may be empty.
    pub realname: String,
}

impl Clone for UserOption {
    /// A copy with the same names.
    fn clone(&self) -> (u: UserOption)
        ensures
            u == *self,
    {
        UserOption { username: self.username.clone(), realname: self.realname.clone() }
    }
}

/// The label under which a user is listed: the full name, or the login name
/// when the full name is empty.
pub open spec fn user_label(u: UserOption) -> Seq<char> {
    if u.realname@.len() == 0 {
        u.username@
    } else {
        u.realname@
    }
}

impl UserOption {
    /// The label under which the user is listed.
    pub fn label(&self) -> (l: String)
        ensures
            l@ == user_label(*self),
    {
        if self.realname.as_str().is_empty() {
            self.username.clone()
        } else {
            self.realname.clone()
        }
    }
}

/// Messages that the application reacts to: actions of the user, and the
/// answers of the work that it started.
#[derive(Debug)]
pub enum Message {
    OpenRepositoryUrl,
    ToggleContextPage(ContextPage),
    UpdateConfig(Config),
    LaunchUrl(String),
    Delete,
    Register,
    Success,
    /// The connection to the system bus is ready.
    ConnectionReady,
    /// The default fingerprint device was looked up: its object path, if any.
    DeviceFound(Option<String>),
    OperationError(AppError),
    EnrollStart(Option<u32>),
    EnrollStatus(String, bool),
    EnrollStop,
    DeleteComplete,
    ClearDevice,
    CancelClear,
    ClearComplete(Result<(), AppError>),
    EnrolledFingers(Vec<String>),
    FingerSelected(String),
    VerifyFinger,
}

/// Work that the application asks to be done on its behalf.
#[derive(Clone, Debug)]
pub enum Command {
    /// Nothing to do.
    Nothing,
    /// Look up the default fingerprint device.
    FindDevice,
    /// List the prints that a user has enrolled on the device.
    ListFingers { username: String },
    /// Verify a user's finger on the device at `path`.
    VerifyFinger { path: String, username: String, finger: String },
    /// Stop the enrollment that runs on the device at `path`.
    EnrollStop { path: String },
    /// Delete every print of every listed user on the device at `path`.
    ClearDevice { path: String, usernames: Vec<String> },
    /// Delete one print of a user.
    DeletePrint { path: String, username: String, finger: String },
    /// Delete every print of a user.
    DeletePrints { path: String, username: String },
    /// Open the project's repository in a browser.
    OpenRepository,
    /// Open a link in a browser.
    OpenUrl(String),
    /// Save the settings.
    WriteConfig(Config),
}

/// The short form of a commit hash: its first seven characters.
pub fn short_hash(hash: &str) -> (s: String)
    ensures
        s@ == hash@.take(if hash@.len() < 7 { hash@.len() as int } else { 7 }),
{

    let n = hash.unicode_len();
    let k: usize = if n < 7 { n } else { 7 };
    hash.substring_char(0, k).to_owned()
}

/// The link to a commit in the project's repository.
pub fn commit_url(repository: &str, hash: &str) -> (u: String)
    ensures
        u@ == repository@ + "/commits/"@ + hash@,
{
    let mut u = repository.to_owned();
    u.append("/commits/");
    u.append(hash);
    u
}

} // verus!
