//! The list of configured domains: adding, deleting and listing entries.
//!
//! Reading and writing the list from the configuration file is left to the
//! caller; these functions work on the list in memory.

use vstd::prelude::*;

use crate::entry::{text_or, Entry};
use crate::text::{bool_text, bool_to_text};

verus! {

/// Keeps the entries whose name is not `name`.
pub open spec fn named_otherwise(name: Seq<char>) -> spec_fn(Entry) -> bool {
    |e: Entry| e.name@ != name
}

/// Some entry of `entries` has the name `name`.
pub open spec fn has_name(entries: Seq<Entry>, name: Seq<char>) -> bool {
    exists|i: int| 0 <= i < entries.len() && #[trigger] entries[i].name@ == name
}

/// No two entries share a name.
pub open spec fn names_unique(entries: Seq<Entry>) -> bool {
    forall|i: int, j: int|
        0 <= i < j < entries.len() ==> #[trigger] entries[i].name@ != #[trigger] entries[j].name@
}

/// Whether a new entry is activated: as asked, and activated where nothing was asked.
pub open spec fn activation(activated: Option<bool>) -> bool {
    match activated {
        Some(b) => b,
        None => true,
    }
}

/// The line that lists an entry; an absent TXT record shows as `None`.
pub open spec fn domain_line(e: Entry) -> Seq<char> {
    "- "@ + e.name@ + " (active: "@ + bool_text(e.activated) + ", txt: "@ + text_or(e.txt, "None"@)
        + ")"@
}

/// The message after an attempt to add the domain `name`.
pub open spec fn add_message_text(name: Seq<char>, added: bool) -> Seq<char> {
    if added {
        "Domain '"@ + name + "' added."@
    } else {
        "Domain '"@ + name + "' already exists. Use delete first if you want to replace it."@
    }
}

/// The message after an attempt to delete the domain `name`.
pub open spec fn delete_message_text(name: Seq<char>, deleted: bool) -> Seq<char> {
    if deleted {
        "Domain '"@ + name + "' deleted."@
    } else {
        "Domain '"@ + name + "' not found."@
    }
}

/// Whether some entry is named `name`.
pub fn contains_domain(entries: &Vec<Entry>, name: &String) -> (r: bool)
    ensures
        r == has_name(entries@, name@),
{
    let mut i: usize = 0;
    while i < entries.len()
        invariant
            i <= entries.len(),
            forall|k: int| 0 <= k < i ==> #[trigger] entries@[k].name@ != name@,
        decreases entries.len() - i,
    {
        if entries[i].name == *name {
            return true;
        }
        i += 1;
    }
    false
}

/// Adds the domain `name` at the end of the list, unless an entry of that
/// name is there already, in which case the list is left as it is.
/// Returns whether the entry was added.
pub fn add_domain(
    entries: &mut Vec<Entry>,
    name: &String,
    token: &String,
    activated: Option<bool>,
    txt: Option<String>,
) -> (added: bool)
    ensures
        added == !has_name(old(entries)@, name@),
        !added ==> final(entries)@ == old(entries)@,
        added ==> final(entries)@.len() == old(entries)@.len() + 1,
        added ==> final(entries)@.subrange(0, old(entries)@.len() as int) == old(entries)@,
        added ==> final(entries)@.last().name@ == name@,
        added ==> final(entries)@.last().token@ == token@,
        added ==> final(entries)@.last().activated == activation(activated),
        added && activated is None ==> final(entries)@.last().activated,
        added ==> (activated matches Some(b) ==> final(entries)@.last().activated == b),
        added ==> final(entries)@.last().txt == txt,
        has_name(final(entries)@, name@),
        names_unique(old(entries)@) ==> names_unique(final(entries)@),
{
    if contains_domain(entries, name) {
        return false;
    }
    let is_active = match activated {
        Some(b) => b,
        None => true,
    };
    let e = Entry { name: name.clone(), token: token.clone(), activated: is_active, txt };
    entries.push(e);
    proof {
        let n = old(entries)@.len() as int;
        assert(final(entries)@.subrange(0, n) =~= old(entries)@);
        assert(final(entries)@[n].name@ == name@);
    }
    true
}

/// `s.take(k + 1)` filtered is `s.take(k)` filtered, with `s[k]` added where it is kept.
proof fn lemma_filter_take_step(s: Seq<Entry>, p: spec_fn(Entry) -> bool, k: int)
    requires
        0 <= k < s.len(),
    ensures
        s.take(k + 1).filter(p) == (if p(s[k]) {
            s.take(k).filter(p).push(s[k])
        } else {
            s.take(k).filter(p)
        }),
{
    reveal(Seq::filter);
    assert(s.take(k + 1).drop_last() =~= s.take(k));
}

/// Filtering removes an element exactly when some element is not kept.
proof fn lemma_filter_shorter(s: Seq<Entry>, p: spec_fn(Entry) -> bool)
    ensures
        (s.filter(p).len() < s.len()) == (exists|i: int| 0 <= i < s.len() && !p(#[trigger] s[i])),
    decreases s.len(),
{
    reveal(Seq::filter);
    if s.len() > 0 {
        let t = s.drop_last();
        lemma_filter_shorter(t, p);
        t.lemma_filter_len(p);
        if exists|i: int| 0 <= i < t.len() && !p(#[trigger] t[i]) {
            let i = choose|i: int| 0 <= i < t.len() && !p(#[trigger] t[i]);
            assert(s[i] == t[i]);
        }
        if exists|i: int| 0 <= i < s.len() && !p(#[trigger] s[i]) {
            let i = choose|i: int| 0 <= i < s.len() && !p(#[trigger] s[i]);
            if i < t.len() {
                assert(t[i] == s[i]);
            }
        }
    }
}

/// Deletes every entry named `name`, keeping the order of the others.
/// Returns whether the list became shorter.
pub fn delete_domain(entries: &mut Vec<Entry>, name: &String) -> (deleted: bool)
    ensures
        final(entries)@ == old(entries)@.filter(named_otherwise(name@)),
        deleted == (final(entries)@.len() < old(entries)@.len()),
        deleted == has_name(old(entries)@, name@),
        !has_name(final(entries)@, name@),
{
    let ghost before = entries@;
    let ghost p = named_otherwise(name@);
    let initial_len = entries.len();
    let mut i: usize = 0;
    let ghost mut k: int = 0;
    proof {
        assert(before.take(0).filter(p) =~= Seq::<Entry>::empty());
        assert(before.skip(0) =~= before);
        assert(entries@ =~= before.take(0).filter(p) + before.skip(0));
    }
    while i < entries.len()
        invariant
            p == named_otherwise(name@),
            0 <= k <= before.len(),
            i == before.take(k).filter(p).len(),
            entries@ == before.take(k).filter(p) + before.skip(k),
            initial_len == before.len(),
        decreases before.len() - k,
    {
        proof {
            before.take(k).lemma_filter_len(p);
            lemma_filter_take_step(before, p, k);
            assert(entries@[i as int] == before[k]);
        }
        if entries[i].name == *name {
            entries.remove(i);
            proof {
                assert(entries@ =~= before.take(k + 1).filter(p) + before.skip(k + 1));
                k = k + 1;
            }
        } else {
            i += 1;
            proof {
                assert(entries@ =~= before.take(k + 1).filter(p) + before.skip(k + 1));
                k = k + 1;
            }
        }
    }
    proof {
        before.take(k).lemma_filter_len(p);
        assert(k == before.len());
        assert(before.take(k) =~= before);
        assert(entries@ =~= before.filter(p));
        lemma_filter_shorter(before, p);
        if has_name(before, name@) {
            let j = choose|j: int| 0 <= j < before.len() && #[trigger] before[j].name@ == name@;
            assert(!p(before[j]));
        }
        if exists|j: int| 0 <= j < before.len() && !p(#[trigger] before[j]) {
            let j = choose|j: int| 0 <= j < before.len() && !p(#[trigger] before[j]);
            assert(before[j].name@ == name@);
        }
        if has_name(entries@, name@) {
            let j = choose|j: int| 0 <= j < entries@.len() && #[trigger] entries@[j].name@ == name@;
            before.lemma_filter_pred(p, j);
        }
    }
    entries.len() < initial_len
}

/// The line that lists `e`.
pub fn domain_line_text(e: &Entry) -> (r: String)
    ensures
        r@ == domain_line(*e),
{
    let mut s = String::from_str("- ");
    s.append(e.name.as_str());
    s.append(" (active: ");
    let b = bool_to_text(e.activated);
    s.append(b.as_str());
    s.append(", txt: ");
    match &e.txt {
        Some(t) => s.append(t.as_str()),
        None => s.append("None"),
    }
    s.append(")");
    s
}

/// The listing of the domains: one line per entry, in the order of the list.
pub fn list_domains(entries: &Vec<Entry>) -> (lines: Vec<String>)
    ensures
        lines.len() == entries.len(),
        forall|i: int| 0 <= i < entries.len() ==> #[trigger] lines@[i]@ == domain_line(entries@[i]),
{
    let mut lines: Vec<String> = Vec::new();
    let mut i: usize = 0;
    while i < entries.len()
        invariant
            i <= entries.len(),
            lines.len() == i,
            forall|k: int| 0 <= k < i ==> #[trigger] lines@[k]@ == domain_line(entries@[k]),
        decreases entries.len() - i,
    {
        let line = domain_line_text(&entries[i]);
        lines.push(line);
        i += 1;
    }
    lines
}

/// The message that reports an attempt to add the domain `name`.
pub fn add_message(name: &str, added: bool) -> (r: String)
    ensures
        r@ == add_message_text(name@, added),
{
    let mut s = String::from_str("Domain '");
    s.append(name);
    if added {
        s.append("' added.");
    } else {
        s.append("' already exists. Use delete first if you want to replace it.");
    }
    s
}

/// The message that reports an attempt to delete the domain `name`.
pub fn delete_message(name: &str, deleted: bool) -> (r: String)
    ensures
        r@ == delete_message_text(name@, deleted),
{
    let mut s = String::from_str("Domain '");
    s.append(name);
    if deleted {
        s.append("' deleted.");
    } else {
        s.append("' not found.");
    }
    s
}

/// Deleting a name that was just added to a list without it gives the list back.
pub proof fn delete_undoes_add(entries: Seq<Entry>, added: Entry)
    requires
        !has_name(entries, added.name@),
    ensures
        entries.push(added).filter(named_otherwise(added.name@)) == entries,
{
    let p = named_otherwise(added.name@);
    lemma_filter_keeps_all(entries, p);
    reveal(Seq::filter);
    assert(entries.push(added).drop_last() =~= entries);
}

/// Filtering keeps a list whole when every element is kept.
proof fn lemma_filter_keeps_all(s: Seq<Entry>, p: spec_fn(Entry) -> bool)
    requires
        forall|i: int| 0 <= i < s.len() ==> p(#[trigger] s[i]),
    ensures
        s.filter(p) == s,
    decreases s.len(),
{
    reveal(Seq::filter);
    if s.len() > 0 {
        let t = s.drop_last();
        assert forall|i: int| 0 <= i < t.len() implies p(#[trigger] t[i]) by {
            assert(t[i] == s[i]);
        }
        lemma_filter_keeps_all(t, p);
        assert(t.push(s.last()) =~= s);
    }
}

/// Deleting a name twice is deleting it once: the second deletion changes nothing.
pub proof fn delete_is_idempotent(entries: Seq<Entry>, name: Seq<char>)
    ensures
        entries.filter(named_otherwise(name)).filter(named_otherwise(name)) == entries.filter(
            named_otherwise(name),
        ),
        !has_name(entries.filter(named_otherwise(name)), name),
{
    let p = named_otherwise(name);
    let f = entries.filter(p);
    assert forall|i: int| 0 <= i < f.len() implies p(#[trigger] f[i]) by {
        entries.lemma_filter_pred(p, i);
    }
    lemma_filter_keeps_all(f, p);
}

/// Deleting keeps every other entry, in order, and keeps the names distinct.
pub proof fn delete_keeps_names_unique(entries: Seq<Entry>, name: Seq<char>)
    requires
        names_unique(entries),
    ensures
        names_unique(entries.filter(named_otherwise(name))),
    decreases entries.len(),
{
    reveal(Seq::filter);
    let p = named_otherwise(name);
    if entries.len() > 0 {
        let t = entries.drop_last();
        assert(names_unique(t)) by {
            assert forall|i: int, j: int| 0 <= i < j < t.len() implies #[trigger] t[i].name@
                != #[trigger] t[j].name@ by {
                assert(t[i] == entries[i] && t[j] == entries[j]);
            }
        }
        delete_keeps_names_unique(t, name);
        let ft = t.filter(p);
        if p(entries.last()) {
            let f = ft.push(entries.last());
            assert forall|i: int, j: int| 0 <= i < j < f.len() implies #[trigger] f[i].name@
                != #[trigger] f[j].name@ by {
                if j == f.len() - 1 {
                    assert(ft.contains(f[i]));
                    t.lemma_filter_contains_rev(p, f[i]);
                    let k = choose|k: int| 0 <= k < t.len() && t[k] == f[i];
                    assert(entries[k] == t[k]);
                    assert(entries[entries.len() - 1] == entries.last());
                }
            }
        }
    }
}

/// After a name is added, the list has it, so adding it again is refused.
pub proof fn add_then_has_name(entries: Seq<Entry>, added: Entry)
    ensures
        has_name(entries.push(added), added.name@),
{
    assert(entries.push(added)[entries.len() as int] == added);
}

/// A new entry is activated exactly as asked, and activated where nothing was asked.
pub proof fn activation_is_as_asked(b: bool)
    ensures
        activation(Some(b)) == b,
        activation(None) == true,
{
}

/// `true` and `false` show as the words `true` and `false`.
pub proof fn booleans_show_as_words()
    ensures
        bool_text(true) == "true"@,
        bool_text(false) == "false"@,
        bool_text(true) != bool_text(false),
{
    reveal_strlit("true");
    reveal_strlit("false");
    assert("true"@.len() != "false"@.len());
}

/// The start of an entry's listed line: its name and whether it is activated.
pub open spec fn line_head(e: Entry) -> Seq<char> {
    "- "@ + e.name@ + " (active: "@ + bool_text(e.activated)
}

/// A listed line starts with the entry's name and activation, and ends with its
/// TXT record where it has one, whatever its activation, or with `None` where it has none.
pub proof fn listed_line_shows_the_entry(e: Entry)
    ensures
        domain_line(e).len() >= line_head(e).len(),
        domain_line(e).subrange(0, line_head(e).len() as int) == line_head(e),
        e.txt matches Some(t) ==> (domain_line(e).len() >= (", txt: "@ + t@ + ")"@).len()
            && domain_line(e).subrange(
            domain_line(e).len() - (", txt: "@ + t@ + ")"@).len(),
            domain_line(e).len() as int,
        ) == ", txt: "@ + t@ + ")"@),
        e.txt is None ==> {
            let tail = ", txt: None)"@;
            &&& domain_line(e).len() >= tail.len()
            &&& domain_line(e).subrange(domain_line(e).len() - tail.len(), domain_line(e).len() as int)
                == tail
        },
{
    let head = line_head(e);
    let tail = ", txt: "@ + text_or(e.txt, "None"@) + ")"@;
    assert(domain_line(e) =~= head + tail);
    assert(domain_line(e).subrange(0, head.len() as int) =~= head);
    assert(domain_line(e).subrange(head.len() as int, domain_line(e).len() as int) =~= tail);
    if e.txt is None {
        reveal_strlit(", txt: ");
        reveal_strlit("None");
        reveal_strlit(")");
        reveal_strlit(", txt: None)");
        assert(tail =~= ", txt: None)"@);
    }
}

/// Both messages name the domain; adding and refusing, and deleting and not
/// finding, give different messages.
pub proof fn messages_name_the_domain_and_the_outcome(name: Seq<char>)
    ensures
        add_message_text(name, true).subrange(0, name.len() + 8int) == "Domain '"@ + name,
        add_message_text(name, false).subrange(0, name.len() + 8int) == "Domain '"@ + name,
        delete_message_text(name, true).subrange(0, name.len() + 8int) == "Domain '"@ + name,
        delete_message_text(name, false).subrange(0, name.len() + 8int) == "Domain '"@ + name,
        add_message_text(name, true) != add_message_text(name, false),
        delete_message_text(name, true) != delete_message_text(name, false),
{
    reveal_strlit("Domain '");
    reveal_strlit("' added.");
    reveal_strlit("' already exists. Use delete first if you want to replace it.");
    reveal_strlit("' deleted.");
    reveal_strlit("' not found.");
    let p = "Domain '"@ + name;
    assert(add_message_text(name, true).subrange(0, name.len() + 8int) =~= p);
    assert(add_message_text(name, false).subrange(0, name.len() + 8int) =~= p);
    assert(delete_message_text(name, true).subrange(0, name.len() + 8int) =~= p);
    assert(delete_message_text(name, false).subrange(0, name.len() + 8int) =~= p);
    assert(add_message_text(name, true).len() != add_message_text(name, false).len());
    assert(delete_message_text(name, true).len() != delete_message_text(name, false).len());
}

} // verus!
