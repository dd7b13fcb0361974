//! Where packs go on Windows.

use vstd::prelude::*;
use crate::path::{Platform, join, push_segment};

verus! {

/// The pack directory under the home directory on Windows.
pub open spec fn windows_output_path(home: Seq<char>, name: Seq<char>) -> Seq<char> {
    let p = Platform::Windows;
    join(p, join(p, join(p, join(p, join(p, join(p, home, "AppData"@), "LocalLow"@),
        "Last Quarter Studios"@), "Cats are Liquid - A Better Place"@), "Custom"@), name)
}

/// The directory of the pack named `worldpack_name`, under the home
/// directory `home`.
pub fn get_output_path(home: &str, worldpack_name: &str) -> (r: String)
    ensures
        r@ == windows_output_path(home@, worldpack_name@),
{
    let p = Platform::Windows;
    let mut out = String::from_str(home);
    push_segment(&mut out, p, "AppData");
    push_segment(&mut out, p, "LocalLow");
    push_segment(&mut out, p, "Last Quarter Studios");
    push_segment(&mut out, p, "Cats are Liquid - A Better Place");
    push_segment(&mut out, p, "Custom");
    push_segment(&mut out, p, worldpack_name);
    out
}

} // verus!
