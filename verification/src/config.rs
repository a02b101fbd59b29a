//! The persisted configuration, as the supervisor reads it.
//!
//! Loading and saving the file is the caller's business; this module
//! only fixes the fields and their default values.

use vstd::prelude::*;

verus! {

/// The key bound to toggling the about box.
pub fn about_box_default() -> (r: String)
    ensures
        r@ == "A"@,
{
    "A".to_owned()
}

/// Whether the user-defined models directory is scanned.
pub fn enable_default() -> (r: bool)
    ensures
        r == true,
{
    true
}

/// Key binds of the graphical shell.
#[derive(Debug, Clone)]
pub struct KeyBinds {
    pub about_box: String,
}

impl Default for KeyBinds {
    fn default() -> (r: Self)
        ensures
            r.about_box@ == "A"@,
    {
        KeyBinds { about_box: about_box_default() }
    }
}

/// Everything configurable that fits no other section.
#[derive(Debug, Clone)]
pub struct Misc {
    pub enable_custom_folder: bool,
}

impl Default for Misc {
    fn default() -> (r: Self)
        ensures
            r.enable_custom_folder == true,
    {
        Misc { enable_custom_folder: enable_default() }
    }
}

/// The persisted configuration.
#[derive(Debug, Clone)]
pub struct Config {
    pub version: i8,
    pub keybinds: KeyBinds,
    pub misc: Misc,
}

impl Default for Config {
    fn default() -> (r: Self)
        ensures
            r.version == 0,
            r.keybinds.about_box@ == "A"@,
            r.misc.enable_custom_folder == true,
    {
        Config { version: 0, keybinds: KeyBinds::default(), misc: Misc::default() }
    }
}

} // verus!
