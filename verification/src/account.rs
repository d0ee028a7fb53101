//! The configuration of an account.

use vstd::prelude::*;

verus! {

/// Another name for a folder.
#[derive(Clone, Debug, PartialEq, Eq)]
pub struct FolderAlias {
    pub name: String,
    pub alias: String,
}

/// What is configured for an account, whatever its backend.
#[derive(Clone, Debug, PartialEq, Eq)]
pub struct AccountConfig {
    pub name: String,
    pub folder_aliases: Vec<FolderAlias>,
}

} // verus!
