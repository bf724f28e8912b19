use vstd::prelude::*;
use crate::models::Priority;
use crate::text::same_text;

verus! {

/// What `str::to_lowercase` gives for a string: each character replaced by
/// its Unicode lowercase mapping.
pub uninterp spec fn lowercase_of(s: Seq<char>) -> Seq<char>;

/// Calls `str::to_lowercase`. Trusted: the lowercase form is a function of
/// the characters alone, named `lowercase_of`; nothing more is claimed of it.
#[verifier::external_body]
fn to_lowercase(s: &str) -> (r: String)
    ensures
        r@ == lowercase_of(s@),
{
    s.to_lowercase()
}

/// The priority that a lowercase name stands for on the command line:
/// `"medium"` or `"m"` for medium, `"high"` or `"h"` for high, low for
/// anything else.
pub open spec fn priority_named(s: Seq<char>) -> Priority {
    if s == "medium"@ || s == "m"@ {
        Priority::Medium
    } else if s == "high"@ || s == "h"@ {
        Priority::High
    } else {
        Priority::Low
    }
}

/// The priority that an already lowercase name stands for.
pub fn priority_from_lowercase(s: &str) -> (p: Priority)
    ensures
        p == priority_named(s@),
{
    if same_text(s, "medium") || same_text(s, "m") {
        Priority::Medium
    } else if same_text(s, "high") || same_text(s, "h") {
        Priority::High
    } else {
        Priority::Low
    }
}

/// Reads a priority given on the command line, ignoring case.
pub fn parse_priority(s: &str) -> (p: Priority)
    ensures
        p == priority_named(lowercase_of(s@)),
{
    let lower = to_lowercase(s);
    priority_from_lowercase(lower.as_str())
}

/// The name under which a priority is kept in the database.
pub open spec fn label_of(p: Priority) -> Seq<char> {
    match p {
        Priority::Low => "Low"@,
        Priority::Medium => "Medium"@,
        Priority::High => "High"@,
    }
}

/// The name under which a priority is kept in the database.
pub fn priority_label(p: Priority) -> (s: &'static str)
    ensures
        s@ == label_of(p),
{
    match p {
        Priority::Low => "Low",
        Priority::Medium => "Medium",
        Priority::High => "High",
    }
}

/// The priority that a database name stands for: `"High"`, `"Medium"`, and
/// low for anything else.
pub open spec fn priority_of_label(s: Seq<char>) -> Priority {
    if s == "High"@ {
        Priority::High
    } else if s == "Medium"@ {
        Priority::Medium
    } else {
        Priority::Low
    }
}

/// The priority that a name read from the database stands for.
pub fn priority_from_label(s: &str) -> (p: Priority)
    ensures
        p == priority_of_label(s@),
{
    if same_text(s, "High") {
        Priority::High
    } else if same_text(s, "Medium") {
        Priority::Medium
    } else {
        Priority::Low
    }
}

/// A priority written to the database is read back as the same priority.
pub proof fn law_label_roundtrip(p: Priority)
    ensures
        priority_of_label(label_of(p)) == p,
{
    reveal_strlit("Low");
    reveal_strlit("Medium");
    reveal_strlit("High");
    assert("Low"@ != "High"@ && "Low"@ != "Medium"@ && "Medium"@ != "High"@) by {
        assert("Low"@.len() == 3 && "Medium"@.len() == 6 && "High"@.len() == 4);
    }
}

} // verus!
