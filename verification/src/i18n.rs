use vstd::prelude::*;

verus! {

/// The texts of the active language, by message id. A message without an
/// entry is shown in the fallback language, English.
#[derive(Debug)]
pub struct Translations {
    /// Message ids and their texts; a later entry for an id replaces an earlier one.
    pub entries: Vec<(String, String)>,
}

/// The text of message `id` in `entries` (its last entry), or `fallback`
/// when it has none.
pub open spec fn lookup(entries: Seq<(String, String)>, id: Seq<char>, fallback: Seq<char>) -> Seq<char>
    decreases entries.len(),
{
    if entries.len() == 0 {
        fallback
    } else if entries.last().0@ == id {
        entries.last().1@
    } else {
        lookup(entries.drop_last(), id, fallback)
    }
}

impl Translations {
    /// No translations: every text is in the fallback language.
    pub fn new() -> (t: Translations)
        ensures
            t.entries@.len() == 0,
    {
        Translations { entries: Vec::new() }
    }

    /// Adds the text of a message, replacing any earlier one.
    pub fn insert(&mut self, id: String, text: String)
        ensures
            final(self).entries@ == old(self).entries@.push((id, text)),
    {
        self.entries.push((id, text));
    }

    /// The text of message `id`, or `fallback` when it has none.
    pub fn text(&self, id: &str, fallback: &str) -> (t: String)
        ensures
            t@ == lookup(self.entries@, id@, fallback@),
    {
        let mut found = fallback.to_owned();
        let mut i: usize = 0;
        while i < self.entries.len()
            invariant
                i <= self.entries@.len(),
                found@ == lookup(self.entries@.take(i as int), id@, fallback@),
            decreases self.entries@.len() - i,
        {
            proof {
                let p = self.entries@.take(i + 1);
                assert(p.drop_last() == self.entries@.take(i as int));
                assert(p.last() == self.entries@[i as int]);
            }
            if crate::error::same_text(&self.entries[i].0, id) {
                found = self.entries[i].1.clone();
            }
            i = i + 1;
        }
        assert(self.entries@.take(i as int) == self.entries@);
        found
    }
}

/// With no translations every message is shown in the fallback language.
pub proof fn lemma_lookup_empty(entries: Seq<(String, String)>, id: Seq<char>, fallback: Seq<char>)
    requires
        entries.len() == 0,
    ensures
        lookup(entries, id, fallback) == fallback,
{
}


/// A text that was added is the one read back for its id, and adding it
/// changes the text of no other id.
pub proof fn lemma_insert_then_lookup(
    entries: Seq<(String, String)>,
    id: String,
    text: String,
    other: Seq<char>,
    fallback: Seq<char>,
)
    ensures
        lookup(entries.push((id, text)), id@, fallback) == text@,
        other != id@ ==> lookup(entries.push((id, text)), other, fallback) == lookup(entries, other, fallback),
{
    assert(entries.push((id, text)).drop_last() == entries);
}

} // verus!
