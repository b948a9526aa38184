//! Resolution of the caller's environment toggles into construction inputs.
use vstd::prelude::*;
use vstd::string::*;

use crate::stream::Coloring;

verus! {

/// A toggle is set when its value is exactly `true`.
pub open spec fn toggle_set(value: Option<Seq<char>>) -> bool {
    value == Some("true"@)
}

/// Whether the toggle with this value, if any, is set.
pub fn is_toggle_set(value: &Option<String>) -> (r: bool)
    ensures
        r == toggle_set(
            match value {
                Some(v) => Some(v@),
                None => None,
            },
        ),
{
    match value {
        Some(v) => {
            let t = String::from_str("true");
            *v == t
        },
        None => false,
    }
}

/// The coloring preference: `Never` when color is switched off, else `Auto`.
pub fn coloring_for(no_coloring: bool) -> (r: Coloring)
    ensures
        r == (if no_coloring {
            Coloring::Never
        } else {
            Coloring::Auto
        }),
{
    if no_coloring {
        Coloring::Never
    } else {
        Coloring::Auto
    }
}

/// The terminal override: not a terminal when non-interactive mode is forced,
/// else none, so that the probe decides.
pub fn terminal_override(non_interactive: bool) -> (r: Option<bool>)
    ensures
        r == (if non_interactive {
            Some(false)
        } else {
            None
        }),
{
    if non_interactive {
        Some(false)
    } else {
        None
    }
}

/// Whether a stream counts as a terminal: the override when there is one,
/// else what the probe reported.
pub fn resolve_terminal(override_value: Option<bool>, probed: bool) -> (r: bool)
    ensures
        r == match override_value {
            Some(b) => b,
            None => probed,
        },
{
    match override_value {
        Some(b) => b,
        None => probed,
    }
}

} // verus!
