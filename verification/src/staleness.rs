use vstd::prelude::*;
use crate::text::{decimal, push_decimal};

verus! {

/// What looking at a path on disk found.
pub enum Inspection {
    /// Something is there: its length in bytes, and how many whole seconds ago
    /// it was last written, when the platform can tell.
    Found { bytes: u64, written_seconds_ago: Option<u64> },
    /// Nothing is there.
    Missing,
    /// Looking failed for another reason, given as text.
    Failed { message: String },
}

/// The number that an age of `s` seconds is shown with.
pub open spec fn age_count(s: nat) -> nat {
    if s <= 89 {
        s
    } else if s <= 5399 {
        s / 60
    } else if s <= 129_599 {
        s / 3600
    } else {
        s / 86400
    }
}

/// The unit that an age of `s` seconds is shown in.
pub open spec fn age_unit(s: nat) -> Seq<char> {
    if s <= 89 {
        "second"@
    } else if s <= 5399 {
        "minute"@
    } else if s <= 129_599 {
        "hour"@
    } else {
        "day"@
    }
}

/// "N unit ago", with the unit in the plural unless N is one.
pub open spec fn age_text(s: nat) -> Seq<char> {
    decimal(age_count(s)) + " "@ + age_unit(s) + (if age_count(s) == 1 { ""@ } else { "s"@ }) + " ago"@
}

/// One line about a path: `label`, two spaces, then what was found.
/// `absent` says what a missing path means for this kind of path.
pub open spec fn detail_text(label: Seq<char>, seen: Inspection, absent: Seq<char>) -> Seq<char> {
    label + match seen {
        Inspection::Found { bytes, written_seconds_ago } => {
            if bytes == 0 {
                "  tin warning: empty, it holds nothing"@
            } else {
                match written_seconds_ago {
                    Some(s) => "  written "@ + age_text(s as nat),
                    None => "  write time unavailable"@,
                }
            }
        },
        Inspection::Missing => "  tin warning: "@ + absent,
        Inspection::Failed { message } => "  tin warning: cannot inspect it: "@ + message@,
    }
}

/// How long ago something was written, in the coarsest unit that still says
/// something: seconds up to 89, minutes up to 89, hours up to 35, then days.
pub fn age(seconds: u64) -> (r: String)
    ensures
        r@ == age_text(seconds as nat),
{
    let (count, unit): (u64, &str) = if seconds <= 89 {
        (seconds, "second")
    } else if seconds <= 5399 {
        (seconds / 60, "minute")
    } else if seconds <= 129_599 {
        (seconds / 3600, "hour")
    } else {
        (seconds / 86400, "day")
    };
    let mut r = String::new();
    push_decimal(&mut r, count);
    r.append(" ");
    r.append(unit);
    if count == 1 {
        r.append("");
    } else {
        r.append("s");
    }
    r.append(" ago");
    r
}

/// The line for a path: where it is and how stale it is.
pub fn detail(label: &str, seen: &Inspection, absent: &str) -> (r: String)
    ensures
        r@ == detail_text(label@, *seen, absent@),
{
    let mut r = String::from_str(label);
    match seen {
        Inspection::Found { bytes, written_seconds_ago } => {
            if *bytes == 0 {
                r.append("  tin warning: empty, it holds nothing");
            } else {
                match written_seconds_ago {
                    Some(s) => {
                        r.append("  written ");
                        let a = age(*s);
                        r.append(a.as_str());
                    },
                    None => {
                        r.append("  write time unavailable");
                    },
                }
            }
        },
        Inspection::Missing => {
            r.append("  tin warning: ");
            r.append(absent);
        },
        Inspection::Failed { message } => {
            r.append("  tin warning: cannot inspect it: ");
            r.append(message.as_str());
        },
    }
    r
}

/// The line for a configured document, named by its project-relative path.
pub fn describe(relative: &str, seen: &Inspection) -> (r: String)
    ensures
        r@ == detail_text(relative@, *seen, "not created yet"@),
{
    detail(relative, seen, "not created yet")
}

} // verus!
