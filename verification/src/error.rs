use vstd::prelude::*;
use vstd::string::StringExecFns;

verus! {

/// An error reported by the D-Bus layer: a local failure with a message, an
/// error reply of a method call with its error name and optional description,
/// or any other error, kept by its text.
#[derive(Debug)]
pub enum DbusError {
    Failure(String),
    Method { name: String, description: Option<String> },
    Other(String),
}

impl Clone for DbusError {
    /// A copy of the same error.
    fn clone(&self) -> (e: DbusError)
        ensures
            e == *self,
    {
        match self {
            DbusError::Failure(m) => DbusError::Failure(m.clone()),
            DbusError::Method { name, description } => DbusError::Method {
                name: name.clone(),
                description: match description {
                    Some(d) => Some(d.clone()),
                    None => None,
                },
            },
            DbusError::Other(m) => DbusError::Other(m.clone()),
        }
    }
}

/// The mathematical value of a [`DbusError`].
pub enum DbusErrorView {
    Failure(Seq<char>),
    Method { name: Seq<char>, description: Option<Seq<char>> },
    Other(Seq<char>),
}

impl View for DbusError {
    type V = DbusErrorView;

    open spec fn view(&self) -> DbusErrorView {
        match self {
            DbusError::Failure(m) => DbusErrorView::Failure(m@),
            DbusError::Method { name, description } => DbusErrorView::Method {
                name: name@,
                description: match description {
                    Some(d) => Some(d@),
                    None => None,
                },
            },
            DbusError::Other(m) => DbusErrorView::Other(m@),
        }
    }
}

/// Errors shown to the user.
#[derive(Clone, Debug)]
pub enum AppError {
    PermissionDenied,
    AlreadyInUse,
    DeviceNotFound,
    Timeout,
    ConnectDbus(String),
    Unknown(String),
}

/// The mathematical value of an [`AppError`].
pub enum AppErrorView {
    PermissionDenied,
    AlreadyInUse,
    DeviceNotFound,
    Timeout,
    ConnectDbus(Seq<char>),
    Unknown(Seq<char>),
}

impl View for AppError {
    type V = AppErrorView;

    open spec fn view(&self) -> AppErrorView {
        match self {
            AppError::PermissionDenied => AppErrorView::PermissionDenied,
            AppError::AlreadyInUse => AppErrorView::AlreadyInUse,
            AppError::DeviceNotFound => AppErrorView::DeviceNotFound,
            AppError::Timeout => AppErrorView::Timeout,
            AppError::ConnectDbus(m) => AppErrorView::ConnectDbus(m@),
            AppError::Unknown(m) => AppErrorView::Unknown(m@),
        }
    }
}

/// The text of a D-Bus error that is kept when it maps to no known error.
pub open spec fn dbus_error_text(e: DbusErrorView) -> Seq<char> {
    match e {
        DbusErrorView::Failure(m) => m,
        DbusErrorView::Method { name, description } => match description {
            Some(d) => d,
            None => name,
        },
        DbusErrorView::Other(m) => m,
    }
}

/// Which user-facing error a D-Bus error stands for: the fingerprint daemon's
/// permission, busy-device and missing-device errors and the bus's timeout
/// errors are recognised by name; every other error is unknown and keeps its
/// text.
pub open spec fn app_error_of(e: DbusErrorView) -> AppErrorView {
    match e {
        DbusErrorView::Method { name, description } => if name
            == "net.reactivated.Fprint.Error.PermissionDenied"@ {
            AppErrorView::PermissionDenied
        } else if name == "net.reactivated.Fprint.Error.AlreadyInUse"@ {
            AppErrorView::AlreadyInUse
        } else if name == "net.reactivated.Fprint.Error.NoSuchDevice"@ {
            AppErrorView::DeviceNotFound
        } else if name == "org.freedesktop.DBus.Error.Timeout"@ || name
            == "org.freedesktop.DBus.Error.NoReply"@ {
            AppErrorView::Timeout
        } else {
            AppErrorView::Unknown(dbus_error_text(e))
        },
        _ => AppErrorView::Unknown(dbus_error_text(e)),
    }
}

/// The English text of an error.
pub open spec fn error_text(e: AppErrorView) -> Seq<char> {
    match e {
        AppErrorView::PermissionDenied => "Permission denied."@,
        AppErrorView::AlreadyInUse => "Device is already in use by another application."@,
        AppErrorView::DeviceNotFound => "Fingerprint device not found."@,
        AppErrorView::Timeout => "Operation timed out."@,
        AppErrorView::ConnectDbus(m) => "Failed to connect to DBus: \u{2068}"@ + m + "\u{2069}"@,
        AppErrorView::Unknown(m) => m,
    }
}

/// An error with a context added: only an unknown error takes the context,
/// as a prefix of its text; known errors stay as they are.
pub open spec fn error_with_context(e: AppErrorView, context: Seq<char>) -> AppErrorView {
    match e {
        AppErrorView::Unknown(m) => AppErrorView::Unknown(context + ": "@ + m),
        _ => e,
    }
}

/// Whether a string holds exactly the characters of a literal.
pub fn same_text(s: &String, lit: &str) -> (r: bool)
    ensures
        r == (s@ == lit@),
{
    let t = lit.to_owned();
    *s == t
}

impl DbusError {
    /// The text kept when the error maps to no known error.
    pub fn text(&self) -> (t: String)
        ensures
            t@ == dbus_error_text(self@),
    {
        match self {
            DbusError::Failure(m) => m.clone(),
            DbusError::Method { name, description } => match description {
                Some(d) => d.clone(),
                None => name.clone(),
            },
            DbusError::Other(m) => m.clone(),
        }
    }
}

impl AppError {
    /// The user-facing error that a D-Bus error stands for.
    pub fn from_dbus(e: &DbusError) -> (r: AppError)
        ensures
            r@ == app_error_of(e@),
    {
        match e {
            DbusError::Method { name, description: _ } => {
                if same_text(name, "net.reactivated.Fprint.Error.PermissionDenied") {
                    AppError::PermissionDenied
                } else if same_text(name, "net.reactivated.Fprint.Error.AlreadyInUse") {
                    AppError::AlreadyInUse
                } else if same_text(name, "net.reactivated.Fprint.Error.NoSuchDevice") {
                    AppError::DeviceNotFound
                } else if same_text(name, "org.freedesktop.DBus.Error.Timeout") || same_text(
                    name,
                    "org.freedesktop.DBus.Error.NoReply",
                ) {
                    AppError::Timeout
                } else {
                    AppError::Unknown(e.text())
                }
            },
            _ => AppError::Unknown(e.text()),
        }
    }

    /// The English text of the error.
    pub fn localized_message(&self) -> (m: String)
        ensures
            m@ == error_text(self@),
    {
        match self {
            AppError::PermissionDenied => "Permission denied.".to_owned(),
            AppError::AlreadyInUse => "Device is already in use by another application.".to_owned(),
            AppError::DeviceNotFound => "Fingerprint device not found.".to_owned(),
            AppError::Timeout => "Operation timed out.".to_owned(),
            AppError::ConnectDbus(m) => {
                let mut s = "Failed to connect to DBus: \u{2068}".to_owned();
                s.append(m.as_str());
                s.append("\u{2069}");
                s
            },
            AppError::Unknown(m) => m.clone(),
        }
    }

    /// Adds a context to an unknown error; known errors are returned unchanged.
    pub fn with_context(self, context: &str) -> (r: AppError)
        ensures
            r@ == error_with_context(self@, context@),
    {
        match self {
            AppError::Unknown(m) => {
                let mut s = context.to_owned();
                s.append(": ");
                s.append(m.as_str());
                AppError::Unknown(s)
            },
            other => other,
        }
    }
}

} // verus!
