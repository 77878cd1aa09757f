//! What the menu can ask of the application: each variant names a file
//! action on a chosen path, or a view request.

use vstd::prelude::*;

verus! {

/// The outcome of a menu interaction.  Paths travel as plain strings;
/// the shell that showed the dialog turns them back into its own path
/// values.
#[derive(Clone, Debug)]
pub enum MenuResult {
    New,
    Open(String),
    Save(String),
    ImportObj(String),
    Settings,
}

} // verus!
