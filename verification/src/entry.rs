//! One configured domain.

use vstd::prelude::*;

use crate::text::{bool_text, bool_to_text};

verus! {

/// A DuckDNS domain with its token, whether updates are on, and an optional TXT record.
#[derive(Debug, Clone)]
pub struct Entry {
    pub name: String,
    pub token: String,
    pub activated: bool,
    pub txt: Option<String>,
}

/// The text of an optional string, or `none` where it is absent.
pub open spec fn text_or(o: Option<String>, none: Seq<char>) -> Seq<char> {
    match o {
        Some(s) => s@,
        None => none,
    }
}

impl Entry {
    /// The text that displays an entry: name, activation and TXT record, ending in a newline.
    pub open spec fn display_text(self) -> Seq<char> {
        "Name: "@ + self.name@ + ", Activated:"@ + bool_text(self.activated) + ", txt: "@
            + text_or(self.txt, Seq::empty()) + " \n"@
    }

    /// The display text of this entry (an absent TXT record shows as nothing).
    pub fn to_display_string(&self) -> (r: String)
        ensures
            r@ == self.display_text(),
    {
        let mut s = String::from_str("Name: ");
        s.append(self.name.as_str());
        s.append(", Activated:");
        let b = bool_to_text(self.activated);
        s.append(b.as_str());
        s.append(", txt: ");
        match &self.txt {
            Some(t) => s.append(t.as_str()),
            None => {},
        }
        s.append(" \n");
        s
    }
}

/// The display text starts with the entry's name and ends with its TXT record
/// (nothing where it has none), followed by a space and a newline.
pub proof fn display_shows_name_and_txt(e: Entry)
    ensures
        e.display_text().subrange(0, 6int + e.name@.len()) == "Name: "@ + e.name@,
        e.display_text().len() >= (", txt: "@ + text_or(e.txt, Seq::empty()) + " \n"@).len(),
        e.display_text().subrange(
            e.display_text().len() - (", txt: "@ + text_or(e.txt, Seq::empty()) + " \n"@).len(),
            e.display_text().len() as int,
        ) == ", txt: "@ + text_or(e.txt, Seq::empty()) + " \n"@,
        e.txt matches Some(t) ==> text_or(e.txt, Seq::empty()) == t@,
        e.txt is None ==> text_or(e.txt, Seq::empty()) == Seq::<char>::empty(),
{
    reveal_strlit("Name: ");
    let head = "Name: "@ + e.name@ + ", Activated:"@ + bool_text(e.activated);
    let tail = ", txt: "@ + text_or(e.txt, Seq::empty()) + " \n"@;
    assert(e.display_text() =~= head + tail);
    assert(e.display_text().subrange(0, 6int + e.name@.len()) =~= "Name: "@ + e.name@);
    assert(e.display_text().subrange(head.len() as int, e.display_text().len() as int) =~= tail);
}

} // verus!
