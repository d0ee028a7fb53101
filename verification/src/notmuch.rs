//! The setup of the Notmuch backend, and the folders it shows.

use crate::account::AccountConfig;
use crate::backend::ListFolders;
use crate::folder::{list_aliases, listing, Folder};
use vstd::prelude::*;

verus! {

/// What is configured for a Notmuch database.
#[derive(Clone, Debug, PartialEq, Eq)]
pub struct NotmuchConfig {
    /// Where the database lies.
    pub db_path: String,
}

/// Builds the context of the Notmuch backend.
#[derive(Clone, Debug, PartialEq, Eq)]
pub struct NotmuchContextBuilder {
    /// The account configuration.
    pub account_config: AccountConfig,
    /// The Notmuch configuration.
    pub notmuch_config: NotmuchConfig,
}

impl NotmuchContextBuilder {
    /// A builder for an account and its Notmuch configuration.
    pub fn new(account_config: AccountConfig, notmuch_config: NotmuchConfig) -> (res: Self)
        ensures
            res.account_config == account_config,
            res.notmuch_config == notmuch_config,
    {
        NotmuchContextBuilder { account_config, notmuch_config }
    }
}

/// What the features of the Notmuch backend work with.
#[derive(Clone, Debug, PartialEq, Eq)]
pub struct NotmuchContextSync {
    /// The account configuration.
    pub account_config: AccountConfig,
    /// The Notmuch configuration.
    pub notmuch_config: NotmuchConfig,
}

/// Lists the folders of the Notmuch backend, which are the aliases of the account.
#[derive(Debug, PartialEq, Eq)]
pub struct ListNotmuchFolders<'a> {
    ctx: &'a NotmuchContextSync,
}

impl<'a> ListNotmuchFolders<'a> {
    /// The context that the feature works with.
    pub closed spec fn context(&self) -> NotmuchContextSync {
        *self.ctx
    }

    /// The feature for a context.
    pub fn new(ctx: &'a NotmuchContextSync) -> (res: Self)
        ensures
            res.context() == *ctx,
    {
        ListNotmuchFolders { ctx }
    }
}

impl<'a> ListFolders for ListNotmuchFolders<'a> {
    /// One folder for each alias of the account, described by the alias, from the last name in
    /// the order of texts to the first.
    open spec fn folders(&self) -> Seq<Folder> {
        listing(
            self.context().account_config.folder_aliases@,
            self.context().account_config.folder_aliases.len() as int,
        )
    }

    fn list_folders(&self) -> (res: Vec<Folder>) {
        list_aliases(&self.ctx.account_config.folder_aliases)
    }
}

} // verus!
