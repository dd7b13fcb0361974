//! Joining path segments and resolving the directory a pack is written to.

use vstd::prelude::*;
use crate::linux;
use crate::windows;

verus! {

/// A host platform, each with its own separator and home variable.
#[derive(Debug, Clone, Copy, PartialEq, Eq, Structural)]
pub enum Platform {
    Linux,
    Windows,
}

/// Why the output directory could not be resolved.
#[derive(Debug, Clone, Copy, PartialEq, Eq, Structural)]
pub enum PathError {
    /// The platform's home variable is not set.
    MissingHome,
}

pub open spec fn separator(p: Platform) -> char {
    match p {
        Platform::Linux => '/',
        Platform::Windows => '\\',
    }
}

pub open spec fn is_separator(p: Platform, c: char) -> bool {
    match p {
        Platform::Linux => c == '/',
        Platform::Windows => c == '/' || c == '\\',
    }
}

/// `base` followed by `seg`, with a separator between them unless `base` is
/// empty or already ends with one.
pub open spec fn join(p: Platform, base: Seq<char>, seg: Seq<char>) -> Seq<char> {
    if base.len() == 0 || is_separator(p, base.last()) {
        base + seg
    } else {
        base + seq![separator(p)] + seg
    }
}

/// A pack name is one path segment: not empty, and free of separators of
/// either platform.
pub open spec fn is_pack_name(s: Seq<char>) -> bool {
    &&& s.len() > 0
    &&& forall|i: int| 0 <= i < s.len() ==> s[i] != '/' && s[i] != '\\'
}

/// The directory of the named pack on the platform, under `home`.
pub open spec fn output_path(p: Platform, home: Seq<char>, name: Seq<char>) -> Seq<char> {
    match p {
        Platform::Linux => linux::linux_output_path(home, name),
        Platform::Windows => windows::windows_output_path(home, name),
    }
}

impl Platform {
    /// The environment variable that holds the user's home directory.
    pub fn home_variable(self) -> (r: &'static str)
        ensures
            r@ == (match self {
                Platform::Linux => "HOME"@,
                Platform::Windows => "USERPROFILE"@,
            }),
    {
        match self {
            Platform::Linux => "HOME",
            Platform::Windows => "USERPROFILE",
        }
    }
}

/// Appends `seg` to the path in `out` as [`join`] states.
pub fn push_segment(out: &mut String, p: Platform, seg: &str)
    ensures
        final(out)@ == join(p, old(out)@, seg@),
{
    let n = out.as_str().unicode_len();
    let needs_separator = if n == 0 {
        false
    } else {
        let c = out.as_str().get_char(n - 1);
        match p {
            Platform::Linux => c != '/',
            Platform::Windows => c != '/' && c != '\\',
        }
    };
    if needs_separator {
        match p {
            Platform::Linux => {
                out.append("/");
                proof {
                    reveal_strlit("/");
                }
            },
            Platform::Windows => {
                out.append("\\");
                proof {
                    reveal_strlit("\\");
                }
            },
        }
    }
    out.append(seg);
}

/// The directory of the named pack, given the value of the platform's home
/// variable; fails when that variable is unset.
pub fn resolve_output_root(p: Platform, home: Option<&str>, name: &str) -> (r: Result<String, PathError>)
    ensures
        home is None <==> r is Err,
        r is Err ==> r->Err_0 == PathError::MissingHome,
        r is Ok ==> r->Ok_0@ == output_path(p, home->Some_0@, name@),
{
    match home {
        None => Err(PathError::MissingHome),
        Some(h) => match p {
            Platform::Linux => Ok(linux::get_output_path(h, name)),
            Platform::Windows => Ok(windows::get_output_path(h, name)),
        },
    }
}

} // verus!
