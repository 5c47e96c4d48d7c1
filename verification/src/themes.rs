//! Colour themes of the rendered card.

use vstd::prelude::*;
use vstd::string::*;

verus! {

/// The colours that a card is drawn in.
#[derive(Clone, Debug, PartialEq, Eq)]
pub struct Theme {
    pub title_color: String,
    pub icon_color: String,
    pub text_color: String,
    pub background_color: String,
    pub border_color: String,
}

/// The dark theme: light text on a near-black background.
pub fn dark() -> (theme: Theme)
    ensures
        theme.title_color@ == "#fff"@,
        theme.icon_color@ == "#9f9f9f"@,
        theme.text_color@ == "#79ff97"@,
        theme.background_color@ == "#151515"@,
        theme.border_color@ == "#fff"@,
{
    Theme {
        title_color: "#fff".to_owned(),
        icon_color: "#9f9f9f".to_owned(),
        text_color: "#79ff97".to_owned(),
        background_color: "#151515".to_owned(),
        border_color: "#fff".to_owned(),
    }
}

} // verus!
