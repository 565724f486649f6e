//! The view-command protocol: the closed set of display views and the text
//! payload that tells a connection to switch to one.

use vstd::prelude::*;
use crate::strutil::str_eq;

verus! {

/// The closed enumeration of display views a client can show.
#[derive(Clone, Copy, Debug, PartialEq, Eq, Structural)]
pub enum ViewMode {
    Clock,
    Note,
}

impl ViewMode {
    /// Parses a wire string: case-sensitive exact match against `"clock"`
    /// and `"note"`; anything else is rejected, never defaulted.
    pub fn from_str(value: &str) -> (r: Result<ViewMode, String>)
        ensures
            value@ == "clock"@ ==> r == Ok::<ViewMode, String>(ViewMode::Clock),
            value@ == "note"@ ==> r == Ok::<ViewMode, String>(ViewMode::Note),
            (value@ != "clock"@ && value@ != "note"@) ==> (r matches Err(e) && e@
                == "invalid view value. valid values: clock, note"@),
    {
        proof {
            reveal_strlit("clock");
            reveal_strlit("note");
            assert("clock"@.len() == 5 && "note"@.len() == 4);
        }
        if str_eq(value, "clock") {
            Ok(ViewMode::Clock)
        } else if str_eq(value, "note") {
            Ok(ViewMode::Note)
        } else {
            Err("invalid view value. valid values: clock, note".to_owned())
        }
    }

    /// The wire name of the view, the exact string `from_str` accepts.
    pub fn to_string(&self) -> (r: String)
        ensures
            *self == ViewMode::Clock ==> r@ == "clock"@,
            *self == ViewMode::Note ==> r@ == "note"@,
    {
        match self {
            ViewMode::Clock => "clock".to_owned(),
            ViewMode::Note => "note".to_owned(),
        }
    }
}

/// The text of the message a connection receives when it must change view.
pub open spec fn change_view_text(v: ViewMode) -> Seq<char> {
    match v {
        ViewMode::Clock => "CmdChangeView Clock"@,
        ViewMode::Note => "CmdChangeView Note"@,
    }
}

/// Builds the change-view payload for one view.
pub fn change_view_message(v: ViewMode) -> (r: String)
    ensures
        r@ == change_view_text(v),
{
    match v {
        ViewMode::Clock => "CmdChangeView Clock".to_owned(),
        ViewMode::Note => "CmdChangeView Note".to_owned(),
    }
}

} // verus!
