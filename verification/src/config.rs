use vstd::prelude::*;
use vstd::string::StrSliceExecFns;

verus! {

/// Application theme preference.
#[derive(Clone, Copy, Debug, PartialEq, Eq, Structural, Hash)]
pub enum AppTheme {
    /// Follow the system theme (dark or light by the system setting).
    System,
    /// Always use the dark theme.
    Dark,
    /// Always use the light theme.
    Light,
}

impl Default for AppTheme {
    /// Following the system is the default preference.
    fn default() -> (t: AppTheme)
        ensures
            t == AppTheme::System,
    {
        AppTheme::System
    }
}

/// Which theme the interface is drawn with.
#[derive(Clone, Copy, Debug, PartialEq, Eq, Structural)]
pub enum ThemeChoice {
    /// The COSMIC desktop's dark theme, with dark preferred.
    SystemDark,
    /// The COSMIC desktop's light theme, with light preferred.
    SystemLight,
    /// Whatever the COSMIC desktop prefers.
    SystemPreference,
    /// The built-in dark theme.
    BuiltinDark,
    /// The built-in light theme.
    BuiltinLight,
}

/// The theme drawn for a preference. On the COSMIC desktop its own themes are
/// used; elsewhere its settings are unreliable, so built-in themes are used,
/// and following the system starts out dark.
pub open spec fn theme_for(pref: AppTheme, cosmic_desktop: bool) -> ThemeChoice {
    if cosmic_desktop {
        match pref {
            AppTheme::Dark => ThemeChoice::SystemDark,
            AppTheme::Light => ThemeChoice::SystemLight,
            AppTheme::System => ThemeChoice::SystemPreference,
        }
    } else {
        match pref {
            AppTheme::Dark | AppTheme::System => ThemeChoice::BuiltinDark,
            AppTheme::Light => ThemeChoice::BuiltinLight,
        }
    }
}

impl AppTheme {
    /// The theme drawn for this preference, on the COSMIC desktop or elsewhere.
    pub fn theme(&self, cosmic_desktop: bool) -> (t: ThemeChoice)
        ensures
            t == theme_for(*self, cosmic_desktop),
    {
        if cosmic_desktop {
            match self {
                AppTheme::Dark => ThemeChoice::SystemDark,
                AppTheme::Light => ThemeChoice::SystemLight,
                AppTheme::System => ThemeChoice::SystemPreference,
            }
        } else {
            match self {
                AppTheme::Dark | AppTheme::System => ThemeChoice::BuiltinDark,
                AppTheme::Light => ThemeChoice::BuiltinLight,
            }
        }
    }
}

/// Settings that persist between runs.
#[derive(Clone, Copy, Debug, PartialEq, Eq, Structural)]
pub struct Config {
    pub app_theme: AppTheme,
    pub experimental_ui: bool,
}

impl Default for Config {
    /// Follow the system theme and show the main interface.
    fn default() -> (c: Config)
        ensures
            c == (Config { app_theme: AppTheme::System, experimental_ui: false }),
    {
        Config { app_theme: AppTheme::System, experimental_ui: false }
    }
}

/// ASCII upper case of one character; other characters are unchanged.
pub open spec fn ascii_upper(c: char) -> char {
    if 'a' <= c && c <= 'z' {
        ((c as u32) - 32) as char
    } else {
        c
    }
}

/// ASCII upper case of a text.
pub open spec fn ascii_upper_text(s: Seq<char>) -> Seq<char> {
    Seq::new(s.len(), |i: int| ascii_upper(s[i]))
}

/// Whether `pat` occurs in `s` starting at position `i`.
pub open spec fn occurs_at(s: Seq<char>, pat: Seq<char>, i: int) -> bool {
    0 <= i && i + pat.len() <= s.len() && forall|j: int| 0 <= j < pat.len() ==> s[i + j] == pat[j]
}

/// Whether `pat` occurs anywhere in `s`.
pub open spec fn occurs_in(s: Seq<char>, pat: Seq<char>) -> bool {
    exists|i: int| occurs_at(s, pat, i)
}

/// The name that marks the COSMIC desktop.
pub open spec fn cosmic_name() -> Seq<char> {
    seq!['C', 'O', 'S', 'M', 'I', 'C']
}

/// Whether the value of `XDG_CURRENT_DESKTOP` names the COSMIC desktop: the
/// value, in ASCII upper case, contains `COSMIC`. An unset (or unreadable)
/// variable means another desktop.
pub open spec fn names_cosmic(desktop: Option<Seq<char>>) -> bool {
    match desktop {
        Some(d) => occurs_in(ascii_upper_text(d), cosmic_name()),
        None => false,
    }
}

fn upper_char(c: char) -> (u: char)
    ensures
        u == ascii_upper(c),
{
    let n = c as u32;
    if 97 <= n && n <= 122 {
        let b: u8 = (n - 32) as u8;
        b as char
    } else {
        c
    }
}

/// Whether `pat` occurs in `s`.
pub fn contains_chars(s: &Vec<char>, pat: &Vec<char>) -> (r: bool)
    ensures
        r == occurs_in(s@, pat@),
{
    if pat.len() > s.len() {
        assert forall|i: int| !occurs_at(s@, pat@, i) by {}
        return false;
    }
    let slen = s.len();
    let plen = pat.len();
    let last = slen - plen;
    let mut i: usize = 0;
    while i <= last
        invariant
            slen == s@.len(),
            plen == pat@.len(),
            last == slen - plen,
            plen <= slen,
            i <= last + 1,
            forall|k: int| 0 <= k < i ==> !occurs_at(s@, pat@, k),
        decreases last + 1 - i,
    {
        let mut j: usize = 0;
        let mut same = true;
        while j < plen
            invariant
                i <= last,
                slen == s@.len(),
                plen == pat@.len(),
                last == slen - plen,
                plen <= slen,
                j <= plen,
                same == (forall|t: int| 0 <= t < j ==> s@[i + t] == pat@[t]),
            decreases plen - j,
        {
            if s[i + j] != pat[j] {
                same = false;
            }
            j = j + 1;
        }
        if same {
            assert(occurs_at(s@, pat@, i as int));
            return true;
        }
        assert(pat@.len() > 0);
        i = i + 1;
    }
    assert forall|k: int| !occurs_at(s@, pat@, k) by {
        if 0 <= k < i {
        } else if occurs_at(s@, pat@, k) {
            assert(k + pat@.len() <= s@.len());
        }
    }
    false
}

/// Whether the desktop named by `XDG_CURRENT_DESKTOP` (passed as its value,
/// `None` when it is unset) is COSMIC.
pub fn is_cosmic_desktop(desktop: Option<&str>) -> (r: bool)
    ensures
        r == names_cosmic(
            match desktop {
                Some(d) => Some(d@),
                None => None,
            },
        ),
{
    match desktop {
        None => false,
        Some(d) => {
            let n = d.unicode_len();
            let mut upper: Vec<char> = Vec::new();
            let mut i: usize = 0;
            while i < n
                invariant
                    n == d@.len(),
                    i <= n,
                    upper@ == ascii_upper_text(d@).subrange(0, i as int),
                decreases n - i,
            {
                let c = d.get_char(i);
                upper.push(upper_char(c));
                assert(upper@ =~= ascii_upper_text(d@).subrange(0, i + 1));
                i = i + 1;
            }
            assert(upper@ =~= ascii_upper_text(d@));
            let pat = vec!['C', 'O', 'S', 'M', 'I', 'C'];
            assert(pat@ =~= cosmic_name());
            contains_chars(&upper, &pat)
        },
    }
}


/// The COSMIC desktop is recognised whatever the case of its name: a value
/// that contains `COSMIC`, or `cosmic`, names it.
pub proof fn lemma_cosmic_in_any_case(d: Seq<char>, i: int)
    requires
        occurs_at(d, cosmic_name(), i) || occurs_at(d, seq!['c', 'o', 's', 'm', 'i', 'c'], i),
    ensures
        names_cosmic(Some(d)),
{
    let u = ascii_upper_text(d);
    assert forall|j: int| 0 <= j < 6 implies u[i + j] == cosmic_name()[j] by {
        assert(u[i + j] == ascii_upper(d[i + j]));
    }
    assert(occurs_at(u, cosmic_name(), i));
}

} // verus!
