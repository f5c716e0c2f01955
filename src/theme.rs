//! Colours of the interactive surface.
use vstd::prelude::*;

verus! {

/// A colour theme: CSS colour values for backgrounds, text and accents.
#[derive(Debug, Clone, Copy, PartialEq, Eq)]
pub struct ThemeDef {
    pub bg_primary: &'static str,
    pub bg_secondary: &'static str,
    pub bg_tertiary: &'static str,
    pub text_primary: &'static str,
    pub text_secondary: &'static str,
    pub bg_success: &'static str,
    pub bg_danger: &'static str,
    pub blurple: &'static str,
    pub star_yellow: &'static str,
}

impl ThemeDef {
    /// The dark theme.
    pub fn dark() -> (r: ThemeDef)
        ensures
            r.bg_primary@ == "rgb(46, 46, 52)"@,
            r.bg_secondary@ == "rgb(52, 52, 58)"@,
            r.bg_tertiary@ == "rgb(56, 56, 62)"@,
            r.text_primary@ == "white"@,
            r.text_secondary@ == "rgb(219, 219, 219)"@,
            r.bg_success@ == "rgb(68, 162, 91)"@,
            r.bg_danger@ == "rgb(210, 45, 57)"@,
            r.blurple@ == "rgb(88, 101, 242)"@,
            r.star_yellow@ == "rgb(255, 172, 51)"@,
    {
        ThemeDef {
            bg_primary: "rgb(46, 46, 52)",
            bg_secondary: "rgb(52, 52, 58)",
            bg_tertiary: "rgb(56, 56, 62)",
            text_primary: "white",
            text_secondary: "rgb(219, 219, 219)",
            bg_success: "rgb(68, 162, 91)",
            bg_danger: "rgb(210, 45, 57)",
            blurple: "rgb(88, 101, 242)",
            star_yellow: "rgb(255, 172, 51)",
        }
    }
}

} // verus!
