//! The defaults and choices that the input collector offers.
use vstd::prelude::*;
use crate::models::SavedMachine;
use crate::text::{dec, decimal};

verus! {

/// The duration, in hours, offered when none is typed.
pub const DEFAULT_DURATION: u32 = 2;

/// The reason offered when none is typed.
pub fn default_reason() -> (r: String)
    ensures
        r@ == "Routine hardware check"@,
{
    String::from_str("Routine hardware check")
}

/// The four maintenance categories, in the order they are offered.
pub open spec fn category_names() -> Seq<Seq<char>> {
    seq!["software"@, "hardware"@, "network"@, "other"@]
}

/// The category at position `selection` of the offered list, if any.
pub fn category_at(selection: usize) -> (r: Option<String>)
    ensures
        selection < 4 ==> r is Some && r->0@ == category_names()[selection as int],
        selection >= 4 ==> r is None,
{
    if selection == 0 {
        Some(String::from_str("software"))
    } else if selection == 1 {
        Some(String::from_str("hardware"))
    } else if selection == 2 {
        Some(String::from_str("network"))
    } else if selection == 3 {
        Some(String::from_str("other"))
    } else {
        None
    }
}

/// How a cached machine is offered: `id - hostname`.
pub open spec fn choice_text(m: SavedMachine) -> Seq<char> {
    dec(m.machine_id as nat) + " - "@ + m.hostname@
}

/// The entry that lets the operator type an id instead.
pub open spec fn custom_choice_text() -> Seq<char> {
    "Enter custom machine ID"@
}

/// The entries of the selection menu: one per cached machine, in order,
/// then the entry for typing an id.
pub fn machine_choices(saved: &Vec<SavedMachine>) -> (r: Vec<String>)
    ensures
        r@.len() == saved@.len() + 1,
        forall|i: int| 0 <= i < saved@.len() ==> #[trigger] r@[i]@ == choice_text(saved@[i]),
        r@[saved@.len() as int]@ == custom_choice_text(),
{
    let mut r: Vec<String> = Vec::new();
    let mut i: usize = 0;
    while i < saved.len()
        invariant
            i <= saved@.len(),
            r@.len() == i,
            forall|j: int| 0 <= j < i ==> #[trigger] r@[j]@ == choice_text(saved@[j]),
        decreases saved@.len() - i,
    {
        let mut line = decimal(saved[i].machine_id);
        line.append(" - ");
        line.append(saved[i].hostname.as_str());
        r.push(line);
        i = i + 1;
    }
    r.push(String::from_str("Enter custom machine ID"));
    r
}

/// The id picked in the selection menu; none when the operator chose to
/// type one.
pub fn chosen_machine_id(saved: &Vec<SavedMachine>, selection: usize) -> (r: Option<u64>)
    ensures
        selection < saved@.len() ==> r == Some(saved@[selection as int].machine_id),
        selection >= saved@.len() ==> r is None,
{
    if selection < saved.len() {
        Some(saved[selection].machine_id)
    } else {
        None
    }
}

/// Whether the selection menu is offered: only when the cache holds a
/// machine; otherwise the id is typed.
pub fn offers_menu(saved: &Option<Vec<SavedMachine>>) -> (r: bool)
    ensures
        r <==> (saved is Some && saved->0@.len() > 0),
{
    match saved {
        Some(v) => v.len() > 0,
        None => false,
    }
}

} // verus!
