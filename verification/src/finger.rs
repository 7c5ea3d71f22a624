use vstd::prelude::*;
use vstd::string::StringExecFns;
use crate::i18n::{Translations, lookup};

verus! {

/// A finger whose print can be enrolled, or the page that removes every print
/// of the selected user.
#[derive(Clone, Copy, Debug, PartialEq, Eq, Structural)]
pub enum Finger {
    RightThumb,
    RightIndex,
    RightMiddle,
    RightRing,
    RightPinky,
    LeftThumb,
    LeftIndex,
    LeftMiddle,
    LeftRing,
    LeftPinky,
    DeleteAllUsersPrints,
}

/// Every page, in the order in which they are offered.
pub open spec fn all_fingers() -> Seq<Finger> {
    seq![
        Finger::RightThumb,
        Finger::RightIndex,
        Finger::RightMiddle,
        Finger::RightRing,
        Finger::RightPinky,
        Finger::LeftThumb,
        Finger::LeftIndex,
        Finger::LeftMiddle,
        Finger::LeftRing,
        Finger::LeftPinky,
        Finger::DeleteAllUsersPrints,
    ]
}

/// The finger name that the fingerprint daemon uses, if the page is a finger.
pub open spec fn finger_id(f: Finger) -> Option<Seq<char>> {
    match f {
        Finger::RightThumb => Some("right-thumb"@),
        Finger::RightIndex => Some("right-index-finger"@),
        Finger::RightMiddle => Some("right-middle-finger"@),
        Finger::RightRing => Some("right-ring-finger"@),
        Finger::RightPinky => Some("right-little-finger"@),
        Finger::LeftThumb => Some("left-thumb"@),
        Finger::LeftIndex => Some("left-index-finger"@),
        Finger::LeftMiddle => Some("left-middle-finger"@),
        Finger::LeftRing => Some("left-ring-finger"@),
        Finger::LeftPinky => Some("left-little-finger"@),
        Finger::DeleteAllUsersPrints => None,
    }
}

/// The id of the message that names a page: `page-` and the daemon's finger
/// name, or `page-delete-all-users-prints`.
pub open spec fn page_id(f: Finger) -> Seq<char> {
    match finger_id(f) {
        Some(id) => "page-"@ + id,
        None => "page-delete-all-users-prints"@,
    }
}

/// The name shown for a page in the active language: the translation of its
/// message, or the English name.
pub open spec fn page_name(entries: Seq<(String, String)>, f: Finger) -> Seq<char> {
    lookup(entries, page_id(f), finger_name(f))
}

/// The name of a page in the fallback language, English.
pub open spec fn finger_name(f: Finger) -> Seq<char> {
    match f {
        Finger::RightThumb => "Right thumb"@,
        Finger::RightIndex => "Right index finger"@,
        Finger::RightMiddle => "Right middle finger"@,
        Finger::RightRing => "Right ring finger"@,
        Finger::RightPinky => "Right little finger"@,
        Finger::LeftThumb => "Left thumb"@,
        Finger::LeftIndex => "Left index finger"@,
        Finger::LeftMiddle => "Left middle finger"@,
        Finger::LeftRing => "Left ring finger"@,
        Finger::LeftPinky => "Left little finger"@,
        Finger::DeleteAllUsersPrints => "Delete all prints of the user"@,
    }
}

impl Default for Finger {
    /// The right index finger is selected when the application starts.
    fn default() -> (f: Finger)
        ensures
            f == Finger::RightIndex,
    {
        Finger::RightIndex
    }
}

impl Finger {
    /// Every page, in the order in which they are offered.
    pub fn all() -> (pages: &'static [Finger])
        ensures
            pages@ == all_fingers(),
    {
        let pages: &'static [Finger] = &[
            Finger::RightThumb,
            Finger::RightIndex,
            Finger::RightMiddle,
            Finger::RightRing,
            Finger::RightPinky,
            Finger::LeftThumb,
            Finger::LeftIndex,
            Finger::LeftMiddle,
            Finger::LeftRing,
            Finger::LeftPinky,
            Finger::DeleteAllUsersPrints,
        ];
        assert(pages@ =~= all_fingers());
        pages
    }

    /// The name of this page in the fallback language, English.
    fn fallback_name(&self) -> (name: &'static str)
        ensures
            name@ == finger_name(*self),
    {
        match self {
            Finger::RightThumb => "Right thumb",
            Finger::RightIndex => "Right index finger",
            Finger::RightMiddle => "Right middle finger",
            Finger::RightRing => "Right ring finger",
            Finger::RightPinky => "Right little finger",
            Finger::LeftThumb => "Left thumb",
            Finger::LeftIndex => "Left index finger",
            Finger::LeftMiddle => "Left middle finger",
            Finger::LeftRing => "Left ring finger",
            Finger::LeftPinky => "Left little finger",
            Finger::DeleteAllUsersPrints => "Delete all prints of the user",
        }
    }

    /// The name shown for this page when no translation is loaded: its
    /// English name, which is `localized_name_in` with no translations.
    pub fn localized_name(&self) -> (name: String)
        ensures
            name@ == finger_name(*self),
            name@ == page_name(Seq::empty(), *self),
    {
        self.fallback_name().to_owned()
    }

    /// The id of the message that names this page.
    pub fn message_id(&self) -> (id: String)
        ensures
            id@ == page_id(*self),
    {
        match self.as_finger_id() {
            Some(f) => {
                let mut id = "page-".to_owned();
                id.append(f);
                id
            },
            None => "page-delete-all-users-prints".to_owned(),
        }
    }

    /// The name shown for this page in the active language.
    pub fn localized_name_in(&self, translations: &Translations) -> (name: String)
        ensures
            name@ == page_name(translations.entries@, *self),
    {
        let id = self.message_id();
        translations.text(id.as_str(), self.fallback_name())
    }

    /// The finger name that the fingerprint daemon uses; `None` for the page
    /// that deletes every print.
    pub fn as_finger_id(&self) -> (id: Option<&'static str>)
        ensures
            match id {
                Some(s) => finger_id(*self) == Some(s@),
                None => finger_id(*self) is None,
            },
    {
        match self {
            Finger::RightThumb => Some("right-thumb"),
            Finger::RightIndex => Some("right-index-finger"),
            Finger::RightMiddle => Some("right-middle-finger"),
            Finger::RightRing => Some("right-ring-finger"),
            Finger::RightPinky => Some("right-little-finger"),
            Finger::LeftThumb => Some("left-thumb"),
            Finger::LeftIndex => Some("left-index-finger"),
            Finger::LeftMiddle => Some("left-middle-finger"),
            Finger::LeftRing => Some("left-ring-finger"),
            Finger::LeftPinky => Some("left-little-finger"),
            Finger::DeleteAllUsersPrints => None,
        }
    }
}

/// Every page occurs in the list of all pages exactly once.
pub proof fn lemma_all_fingers_lists_each_once(f: Finger)
    ensures
        all_fingers().contains(f),
        all_fingers().no_duplicates(),
        all_fingers().len() == 11,
{
    assert(all_fingers()[0] == Finger::RightThumb);
    assert(all_fingers()[1] == Finger::RightIndex);
    assert(all_fingers()[2] == Finger::RightMiddle);
    assert(all_fingers()[3] == Finger::RightRing);
    assert(all_fingers()[4] == Finger::RightPinky);
    assert(all_fingers()[5] == Finger::LeftThumb);
    assert(all_fingers()[6] == Finger::LeftIndex);
    assert(all_fingers()[7] == Finger::LeftMiddle);
    assert(all_fingers()[8] == Finger::LeftRing);
    assert(all_fingers()[9] == Finger::LeftPinky);
    assert(all_fingers()[10] == Finger::DeleteAllUsersPrints);
}

/// Only the page that deletes every print has no daemon finger name, and two
/// different fingers never share a daemon finger name.
pub proof fn lemma_finger_id_injective(a: Finger, b: Finger)
    ensures
        finger_id(a) is None <==> a == Finger::DeleteAllUsersPrints,
        finger_id(a) is Some && finger_id(a) == finger_id(b) ==> a == b,
{
    reveal_strlit("right-thumb");
    reveal_strlit("right-index-finger");
    reveal_strlit("right-middle-finger");
    reveal_strlit("right-ring-finger");
    reveal_strlit("right-little-finger");
    reveal_strlit("left-thumb");
    reveal_strlit("left-index-finger");
    reveal_strlit("left-middle-finger");
    reveal_strlit("left-ring-finger");
    reveal_strlit("left-little-finger");
    if finger_id(a) is Some && finger_id(a) == finger_id(b) && a != b {
        let x = finger_id(a)->0;
        let y = finger_id(b)->0;
        assert(x[0] != y[0] || x[1] != y[1] || x[5] != y[5] || x[6] != y[6] || x.len() != y.len());
    }
}

/// Two different pages never show the same name, and no name is empty.
pub proof fn lemma_finger_name_injective(a: Finger, b: Finger)
    ensures
        finger_name(a).len() > 0,
        finger_name(a) == finger_name(b) ==> a == b,
{
    reveal_strlit("Right thumb");
    reveal_strlit("Right index finger");
    reveal_strlit("Right middle finger");
    reveal_strlit("Right ring finger");
    reveal_strlit("Right little finger");
    reveal_strlit("Left thumb");
    reveal_strlit("Left index finger");
    reveal_strlit("Left middle finger");
    reveal_strlit("Left ring finger");
    reveal_strlit("Left little finger");
    reveal_strlit("Delete all prints of the user");
    if finger_name(a) == finger_name(b) && a != b {
        let x = finger_name(a);
        let y = finger_name(b);
        assert(x[0] != y[0] || x[5] != y[5] || x[6] != y[6] || x.len() != y.len());
    }
}

} // verus!
