use vstd::prelude::*;

verus! {

/// The address that server files are fetched from, up to the file name.
pub open spec fn base_url() -> Seq<char> {
    "https://raw.githubusercontent.com/teppyboy/everything-v2ray/master/client/profile/sfa/"@
}

/// The address of a server file.
pub fn server_url(file: &str) -> (r: String)
    ensures
        r@ == base_url() + file@,
{
    let mut s = "https://raw.githubusercontent.com/teppyboy/everything-v2ray/master/client/profile/sfa/".to_owned();
    s.append(file);
    s
}

/// The local path of a server file, under the `servers` directory.
pub fn server_path(file: &str) -> (r: String)
    ensures
        r@ == "servers/"@ + file@,
{
    let mut s = "servers/".to_owned();
    s.append(file);
    s
}

/// What to do about a server file.
#[derive(Debug, Clone, Copy, PartialEq, Eq)]
pub enum FetchPlan {
    /// The local copy is used as it is: no network call.
    UseCached,
    /// The file is downloaded and written over any local copy.
    Fetch,
}

/// A server file is fetched when it is absent, or when a refresh is forced.
pub open spec fn plan_for(present: bool, forced: bool) -> FetchPlan {
    if present && !forced {
        FetchPlan::UseCached
    } else {
        FetchPlan::Fetch
    }
}

/// Whether the server file is on disk after carrying out a plan: a fetch
/// writes it, and a cached copy stays.
pub open spec fn present_after(present: bool, plan: FetchPlan) -> bool {
    present || plan == FetchPlan::Fetch
}

/// Decides whether a server file must be fetched, from whether it is on disk
/// and whether a refresh is forced.
pub fn fetch_plan(present: bool, forced: bool) -> (r: FetchPlan)
    ensures
        r == plan_for(present, forced),
{
    if present && !forced {
        FetchPlan::UseCached
    } else {
        FetchPlan::Fetch
    }
}

/// Ensuring a server file is present twice makes at most one network call:
/// whatever the first call finds, the second one uses the local copy.
pub proof fn lemma_ensure_present_idempotent(present: bool)
    ensures
        plan_for(present_after(present, plan_for(present, false)), false) == FetchPlan::UseCached,
        present ==> plan_for(present, false) == FetchPlan::UseCached,
{
}

} // verus!
