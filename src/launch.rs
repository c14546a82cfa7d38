use vstd::prelude::*;

use crate::text::str_eq;

verus! {

/// The words of a string vector.
pub open spec fn words(v: Seq<String>) -> Seq<Seq<char>> {
    v.map_values(|s: String| s@)
}

/// The command that starts the proxy: the program first, then its arguments.
/// Outside Windows a user other than root goes through `sudo`, with the
/// binary as its first argument.
pub open spec fn launch_words(bin: Seq<char>, file: Seq<char>, os: Seq<char>, uid: u32) -> Seq<
    Seq<char>,
> {
    let tail = seq!["run"@, "-c"@, "servers/"@ + file];
    if os != "windows"@ && uid != 0 {
        seq!["sudo"@, bin] + tail
    } else {
        seq![bin] + tail
    }
}

/// The command that starts the proxy for a binary, a server file, an
/// operating system and the current user's id.
pub fn launch_command(bin: &str, file: &str, os: &str, uid: u32) -> (r: Vec<String>)
    ensures
        words(r@) == launch_words(bin@, file@, os@, uid),
{
    let mut v: Vec<String> = Vec::new();
    if !str_eq(os, "windows") && uid != 0 {
        v.push("sudo".to_owned());
    }
    v.push(bin.to_owned());
    v.push("run".to_owned());
    v.push("-c".to_owned());
    let mut path = "servers/".to_owned();
    path.append(file);
    v.push(path);
    proof {
        let w = launch_words(bin@, file@, os@, uid);
        assert(words(v@) =~= w);
    }
    v
}

/// Relies on `users::get_current_uid`: the real user id of this process,
/// which depends on how it was started.
#[verifier::external_body]
fn current_uid() -> (r: u32) {
    users::get_current_uid()
}

/// The command that starts the proxy as the current user: on Windows the
/// binary itself, elsewhere as `launch_command` gives it for this user's id.
pub fn launch_plan(bin: &str, file: &str, os: &str) -> (r: Vec<String>)
    ensures
        os@ == "windows"@ ==> words(r@) == launch_words(bin@, file@, os@, 0),
        exists|uid: u32| words(r@) == #[trigger] launch_words(bin@, file@, os@, uid),
{
    let uid = if str_eq(os, "windows") {
        0
    } else {
        current_uid()
    };
    launch_command(bin, file, os, uid)
}

} // verus!
