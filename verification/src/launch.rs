//! Opening an indexed file with the program the system associates with it.

use vstd::prelude::*;
use vstd::string::StringExecFns;
use crate::command_result::CommandError;

verus! {

/// A program to start, with its arguments in order.
#[derive(Debug)]
pub struct Launch {
    pub program: String,
    pub args: Vec<String>,
}

/// The program name used on Windows to open a file by its association.
pub open spec fn opener_program() -> Seq<char> {
    "rundll32"@
}

/// The arguments that make the opener show `path`.
pub open spec fn opener_args(path: Seq<char>) -> Seq<Seq<char>> {
    seq!["url.dll"@, "FileProtocolHandler"@, path]
}

/// The text reported where no opener is known for the platform.
pub open spec fn unsupported_platform_text() -> Seq<char> {
    "未适配！"@
}

/// Decides how `path` is opened with the default program.
///
/// On Windows the answer is the launch of `rundll32` with the file protocol
/// handler; on every other platform there is none and the failure text is
/// returned. The caller performs the launch.
pub fn open_file_by_default_program(path: &str, windows: bool) -> (plan: Result<
    Launch,
    CommandError,
>)
    ensures
        windows ==> plan is Ok && plan->Ok_0.program@ == opener_program()
            && plan->Ok_0.args.deep_view() == opener_args(path@),
        !windows ==> plan is Err && plan->Err_0.0@ == unsupported_platform_text(),
{
    if windows {
        let mut args: Vec<String> = Vec::new();
        args.push(String::from_str("url.dll"));
        args.push(String::from_str("FileProtocolHandler"));
        args.push(String::from_str(path));
        assert(args.deep_view() =~= opener_args(path@));
        Ok(Launch { program: String::from_str("rundll32"), args })
    } else {
        Err(CommandError(String::from_str("未适配！")))
    }
}

} // verus!
