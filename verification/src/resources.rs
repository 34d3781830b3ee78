//! Where the status display's localized resources live.
//!
//! The display loads message bundles for the user's locales; loading and
//! parsing them belongs to the binary around this crate. The library fixes
//! the one rule of the layout: the resource file of a locale lives under the
//! `res` directory, in a subdirectory named after the locale.

use vstd::prelude::*;

use vstd::string::StringExecFns;

verus! {

/// Generator of the display's message bundles. The binary walks the user's
/// locales with it; the library contributes the resource layout.
pub struct Bundles;

impl Bundles {
    /// The relative path, with `/` separators, of one resource file of one
    /// locale.
    pub fn resource_path(&self, locale: &str, res_id: &str) -> (p: String)
        ensures
            p@ == "res/"@ + locale@ + "/"@ + res_id@,
    {
        let mut p: String = String::from_str("res/");
        p.append(locale);
        p.append("/");
        p.append(res_id);
        assert(p@ =~= "res/"@ + locale@ + "/"@ + res_id@);
        p
    }
}

} // verus!
