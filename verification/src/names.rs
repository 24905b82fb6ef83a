//! Choice of the application name advertised to the media service.
//!
//! The surrounding process reads its executable name and its command name;
//! this module holds the verified choice between them. Wine's preloader
//! shims report themselves as the executable, so their names are skipped in
//! favour of the command name.

use vstd::prelude::*;

verus! {

/// Names under which Wine's preloader shims run; they hide the real
/// application, so the command name is preferred over them.
pub open spec fn is_preloader_name(name: Seq<char>) -> bool {
    name == "wine-preloader"@ || name == "wine64-preloader"@
}

/// The name used when neither source yields one.
pub open spec fn spec_fallback_name(command_name: Option<Seq<char>>) -> Seq<char> {
    match command_name {
        Some(name) => name,
        None => "unknown"@,
    }
}

/// The name the session advertises, as a function of the process's
/// executable name and command name.
pub open spec fn spec_app_name(
    program_name: Option<Seq<char>>,
    command_name: Option<Seq<char>>,
) -> Seq<char> {
    match program_name {
        Some(name) => if !is_preloader_name(name) {
            name
        } else {
            spec_fallback_name(command_name)
        },
        None => spec_fallback_name(command_name),
    }
}

/// Picks the name the session advertises: the executable name unless it is a
/// Wine preloader shim, then the command name, then a fixed fallback.
pub fn get_app_name(program_name: Option<String>, command_name: Option<String>) -> (r: String)
    ensures
        r@ == spec_app_name(
            match program_name {
                Some(p) => Some(p@),
                None => None,
            },
            match command_name {
                Some(c) => Some(c@),
                None => None,
            },
        ),
{
    proof {
        reveal_strlit("wine-preloader");
        reveal_strlit("wine64-preloader");
        reveal_strlit("unknown");
    }
    if let Some(program) = program_name {
        let wine32: String = "wine-preloader".to_owned();
        let wine64: String = "wine64-preloader".to_owned();
        if program != wine32 && program != wine64 {
            return program;
        }
    }
    match command_name {
        Some(command) => command,
        None => "unknown".to_owned(),
    }
}

} // verus!
