//! The program that opens a newly created file.
use vstd::prelude::*;

verus! {

/// The kind of system the program was built for.
#[derive(PartialEq, Eq, Structural, Clone, Copy, Debug)]
pub enum Platform {
    Windows,
    MacOs,
    Unix,
}

pub open spec fn editor_for(platform: Platform) -> Seq<char> {
    match platform {
        Platform::Windows => "notepad3"@,
        Platform::MacOs => "open"@,
        Platform::Unix => "xdg-open"@,
    }
}

/// The command that opens a file with the system's default handler.
pub fn get_default_editor(platform: Platform) -> (r: &'static str)
    ensures
        r@ == editor_for(platform),
{
    match platform {
        Platform::Windows => "notepad3",
        Platform::MacOs => "open",
        Platform::Unix => "xdg-open",
    }
}

} // verus!
