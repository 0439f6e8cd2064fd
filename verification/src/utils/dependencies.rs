//! The external tools this program leans on.

use vstd::prelude::*;
use crate::error::{dependency_error, dependency_message, ErrorKind, SlimmerError};
use crate::text::views;

verus! {

/// Calls `which::which`, which looks a program up on the search path of the
/// environment. The answer depends on the machine, so nothing is promised
/// of it.
#[verifier::external_body]
fn on_search_path(program: &str) -> (found: bool) {
    which::which(program).is_ok()
}

/// The advice for a machine without the merge tool.
pub open spec fn install_advice() -> Seq<char> {
    "Install MKVToolNix from https://mkvtoolnix.download/ or use your package manager (apt install mkvtoolnix, brew install mkvtoolnix, etc.)"@
}

/// What is missing, given which tools were found: without the merge tool
/// nothing can be done, which is an error; without the probe the work goes
/// on, and the probe is listed as missing.
pub fn missing_dependencies(ffprobe_found: bool, mkvmerge_found: bool) -> (missing: Result<
    Vec<String>,
    SlimmerError,
>)
    ensures
        missing is Ok <==> mkvmerge_found,
        missing matches Ok(list) ==> views(list@) == if ffprobe_found {
            Seq::<Seq<char>>::empty()
        } else {
            seq!["ffprobe"@]
        },
        missing matches Err(e) ==> e.kind == ErrorKind::Dependency && e.message@
            == dependency_message("mkvmerge"@, install_advice()),
{
    let mut list: Vec<String> = Vec::new();
    if !ffprobe_found {
        list.push("ffprobe".to_string());
    }
    if !mkvmerge_found {
        return Err(
            dependency_error(
                "mkvmerge",
                "Install MKVToolNix from https://mkvtoolnix.download/ or use your package manager (apt install mkvtoolnix, brew install mkvtoolnix, etc.)",
            ),
        );
    }
    assert(views(list@) =~= if ffprobe_found {
        Seq::<Seq<char>>::empty()
    } else {
        seq!["ffprobe"@]
    });
    Ok(list)
}

/// Looks for the probe and the merge tool on the search path and reports
/// what is missing. Whatever the machine answers, the result is either the
/// error for a missing merge tool or a list that holds at most the probe.
pub fn check_dependencies() -> (missing: Result<Vec<String>, SlimmerError>)
    ensures
        missing matches Ok(list) ==> views(list@) == Seq::<Seq<char>>::empty() || views(list@)
            == seq!["ffprobe"@],
        missing matches Err(e) ==> e.kind == ErrorKind::Dependency && e.message@
            == dependency_message("mkvmerge"@, install_advice()),
{
    let ffprobe_found = on_search_path("ffprobe");
    let mkvmerge_found = on_search_path("mkvmerge");
    missing_dependencies(ffprobe_found, mkvmerge_found)
}

} // verus!
