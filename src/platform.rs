//! The target platform, chosen once at startup, and the program names that
//! depend on it.
use vstd::prelude::*;

verus! {

/// The operating system the editor runs on.
#[derive(Clone, Copy, PartialEq, Eq, Structural)]
pub enum Platform {
    Windows,
    MacOs,
    Linux,
}

/// The site tool's executable on `p`.
pub open spec fn tool_program(p: Platform) -> Seq<char> {
    if p is Windows {
        "hexo.cmd"@
    } else {
        "hexo"@
    }
}

/// The site tool's executable on `p`: a command script on Windows.
pub fn tool_program_name(p: Platform) -> (r: &'static str)
    ensures
        r@ == tool_program(p),
{
    match p {
        Platform::Windows => "hexo.cmd",
        _ => "hexo",
    }
}

} // verus!
