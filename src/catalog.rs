use vstd::prelude::*;

use crate::text::{str_eq, str_trim, trimmed};

verus! {

/// The identifier of the default server, used when nothing was chosen yet.
pub open spec fn default_id() -> Seq<char> {
    "us"@
}

/// The catalog: the file name that a server identifier stands for, if any.
pub open spec fn file_for(id: Seq<char>) -> Option<Seq<char>> {
    if id == "us"@ {
        Some("vpn-us.json"@)
    } else if id == "vn"@ {
        Some("vpn-vn.json"@)
    } else {
        None
    }
}

/// The identifier a selection resolves to: blank input keeps the stored
/// identifier, or the default where none is stored.
pub open spec fn resolved_id(input: Seq<char>, stored: Seq<char>) -> Seq<char> {
    if input.len() == 0 {
        if stored.len() == 0 {
            default_id()
        } else {
            stored
        }
    } else {
        input
    }
}

/// An identifier that is not in the catalog.
#[derive(Debug, Clone, PartialEq, Eq)]
pub enum CatalogError {
    UnknownServer,
}

/// Looks an identifier up in the catalog, exactly as given.
pub fn file_for_id(id: &str) -> (r: Result<String, CatalogError>)
    ensures
        match file_for(id@) {
            Some(f) => r is Ok && r->Ok_0@ == f,
            None => r == Err::<String, CatalogError>(CatalogError::UnknownServer),
        },
{
    if str_eq(id, "us") {
        Ok("vpn-us.json".to_owned())
    } else if str_eq(id, "vn") {
        Ok("vpn-vn.json".to_owned())
    } else {
        Err(CatalogError::UnknownServer)
    }
}

/// Looks up the file of a server identifier, ignoring white space around it.
pub fn server_from_name(name: &str) -> (r: Result<String, CatalogError>)
    ensures
        match file_for(trimmed(name@)) {
            Some(f) => r is Ok && r->Ok_0@ == f,
            None => r == Err::<String, CatalogError>(CatalogError::UnknownServer),
        },
{
    file_for_id(str_trim(name))
}

/// Resolves the identifier typed at the server prompt against the stored one.
pub fn select_server(input: &str, stored: &str) -> (r: String)
    ensures
        r@ == resolved_id(input@, stored@),
{
    if input.is_empty() {
        if stored.is_empty() {
            "us".to_owned()
        } else {
            stored.to_owned()
        }
    } else {
        input.to_owned()
    }
}

} // verus!
