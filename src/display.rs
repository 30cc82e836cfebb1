//! The human-readable device name, shown in the interface and used as the
//! hostname ingredient of the fingerprint.
use vstd::prelude::*;

verus! {

/// The name used when the system offers none.
pub const DEFAULT_DISPLAY_NAME: &'static str = "Desktop";

/// A string without its leading and trailing whitespace.
pub uninterp spec fn trimmed(s: Seq<char>) -> Seq<char>;

/// Relies on `str::trim`: the slice of `s` without leading and trailing
/// whitespace, hence no longer than `s`.
#[verifier::external_body]
fn trim(s: &str) -> (r: &str)
    ensures
        r@ == trimmed(s@),
        r@.len() <= s@.len(),
{
    s.trim()
}

pub open spec fn default_display_name() -> Seq<char> {
    seq!['D', 'e', 's', 'k', 't', 'o', 'p']
}

/// The system hostname when it holds more than whitespace (kept as it is);
/// else the platform's computer name, trimmed, when it holds more than
/// whitespace; else `Desktop`.
pub open spec fn display_name_of(
    hostname: Option<Seq<char>>,
    computer_name: Option<Seq<char>>,
) -> Seq<char> {
    match hostname {
        Some(h) if trimmed(h).len() > 0 => h,
        _ => match computer_name {
            Some(c) if trimmed(c).len() > 0 => trimmed(c),
            _ => default_display_name(),
        },
    }
}

/// Picks the display name from what the system reported: its hostname, and
/// the platform's computer-name variable where there is one. Never fails and
/// never returns an empty name.
pub fn choose_display_name(hostname: Option<String>, computer_name: Option<String>) -> (r: String)
    ensures
        r@ == display_name_of(
            match hostname {
                Some(h) => Some(h@),
                None => None,
            },
            match computer_name {
                Some(c) => Some(c@),
                None => None,
            },
        ),
        r@.len() > 0,
{
    if let Some(h) = hostname {
        if !trim(h.as_str()).is_empty() {
            return h;
        }
    }
    if let Some(c) = computer_name {
        let t = trim(c.as_str());
        if !t.is_empty() {
            return t.to_owned();
        }
    }
    proof {
        reveal_strlit("Desktop");
    }
    let r = DEFAULT_DISPLAY_NAME.to_owned();
    assert(r@ =~= default_display_name());
    r
}

} // verus!
