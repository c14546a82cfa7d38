use vstd::prelude::*;

use crate::asset::SetupError;
use crate::catalog::{file_for, file_for_id, resolved_id, select_server, CatalogError};
use crate::text::{str_trim, trimmed};

verus! {

/// The persisted record: where the proxy binary is, and the server chosen last.
#[derive(Debug, Clone)]
pub struct Config {
    pub bin: String,
    pub server: String,
}

impl Config {
    /// The stored server is empty or an identifier of the catalog.
    pub open spec fn wf(&self) -> bool {
        self.server@.len() == 0 || file_for(self.server@) is Some
    }

    /// A record of a binary path and a server identifier.
    pub fn new(bin: String, server: String) -> (r: Config)
        ensures
            r.bin == bin,
            r.server == server,
    {
        Config { bin, server }
    }

    /// Applies the input typed at the server prompt: resolves it against the
    /// stored identifier, looks the result up in the catalog, ignoring white
    /// space around it, and, where it is known, stores the bare identifier
    /// and returns its file name. An unknown identifier leaves the record as
    /// it was.
    pub fn choose_server(&mut self, input: &str) -> (r: Result<String, CatalogError>)
        ensures
            ({
                let id = resolved_id(input@, old(self).server@);
                match file_for(trimmed(id)) {
                    Some(f) => r is Ok && r->Ok_0@ == f && final(self).bin == old(self).bin
                        && final(self).server@ == trimmed(id) && final(self).wf(),
                    None => r == Err::<String, CatalogError>(CatalogError::UnknownServer)
                        && *final(self) == *old(self),
                }
            }),
    {
        let id = select_server(input, self.server.as_str());
        let bare = str_trim(id.as_str());
        match file_for_id(bare) {
            Ok(f) => {
                self.server = bare.to_owned();
                Ok(f)
            },
            Err(e) => Err(e),
        }
    }
}

/// The record that first-time setup makes from the outcome of resolving the
/// binary: the binary it settled on and no server chosen yet. Where resolving
/// failed (no release listing, no fitting asset, an unsupported
/// architecture), setup fails with the same error and makes no record.
pub fn setup(bin: Result<String, SetupError>) -> (r: Result<Config, SetupError>)
    ensures
        match bin {
            Ok(b) => r is Ok && r->Ok_0.bin == b && r->Ok_0.server@.len() == 0 && r->Ok_0.wf(),
            Err(e) => r == Err::<Config, SetupError>(e),
        },
{
    match bin {
        Ok(b) => Ok(Config { bin: b, server: String::new() }),
        Err(e) => Err(e),
    }
}

} // verus!
