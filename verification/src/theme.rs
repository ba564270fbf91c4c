//! The colours of the interface by what they are for.

use vstd::prelude::*;

verus! {

/// A colour of the theme.
#[derive(Clone, Copy, Debug, PartialEq, Eq, Structural)]
pub enum ThemeColor {
    /// Behind everything.
    Background,
    /// Behind content.
    Content,
    /// Behind the line in use.
    CurrentLine,
    /// Behind what is selected.
    Selection,
    /// Around things.
    Border,
    /// Text.
    Foreground,
    /// Text of less weight.
    ForegroundMuted,
    /// What informs.
    Info,
    /// What warns.
    Warning,
    /// What failed.
    Error,
    /// String literals.
    SyntaxString,
}

} // verus!
