//! What a backend offers on the messages of a folder.

use crate::folder::Folder;
use crate::search::{Envelope, Flag};
use vstd::prelude::*;

verus! {

/// The messages that an operation is about.
#[derive(Clone, Debug, PartialEq, Eq)]
pub enum Id {
    Single(String),
    Multiple(Vec<String>),
}

/// A set of flags.
#[derive(Clone, Debug, PartialEq, Eq)]
pub struct Flags(pub Vec<Flag>);

/// The envelopes of a listing.
#[derive(Clone, Debug, PartialEq, Eq)]
pub struct Envelopes(pub Vec<Envelope>);

/// Messages, each as the bytes it is made of.
#[derive(Clone, Debug, PartialEq, Eq)]
pub struct Messages(pub Vec<Vec<u8>>);

impl Flags {
    /// The set that holds `flag` and nothing else.
    pub fn single(flag: Flag) -> (res: Self)
        ensures
            res.0@ == seq![flag],
    {
        let mut flags: Vec<Flag> = Vec::new();
        flags.push(flag);
        Flags(flags)
    }
}

/// Removes flags from envelopes.
pub trait RemoveFlags {
    /// Why the backend could not.
    type Error;

    /// Removes the given flags from the envelopes that `id` names in `folder`.
    fn remove_flags(&self, folder: &str, id: &Id, flags: &Flags) -> (res: Result<(), Self::Error>)
        ensures
            self.removes(folder@, *id, flags.0@, res),
    ;

    /// Removes the given flag from the envelopes that `id` names in `folder`: the backend is
    /// asked to remove the set that holds this flag and no other, and its answer is handed on.
    fn remove_flag(&self, folder: &str, id: &Id, flag: Flag) -> (res: Result<(), Self::Error>)
        ensures
            self.removes(folder@, *id, seq![flag], res),
    {
        self.remove_flags(folder, id, &Flags::single(flag))
    }

    /// Whether `outcome` is how the backend may answer when asked to remove `flags` from the
    /// envelopes that `id` names in `folder`. Each backend says what its answers are; one that
    /// says nothing may answer anything.
    open spec fn removes(
        &self,
        folder: Seq<char>,
        id: Id,
        flags: Seq<Flag>,
        outcome: Result<(), Self::Error>,
    ) -> bool {
        true
    }
}

/// Lists the envelopes of a folder.
pub trait ListEnvelopes {
    /// Why the backend could not.
    type Error;

    /// Lists the envelopes of page `page` of `folder`, pages holding `page_size` envelopes.
    fn list_envelopes(&self, folder: &str, page_size: usize, page: usize) -> Result<
        Envelopes,
        Self::Error,
    >;
}

/// Reads messages without marking them as seen.
pub trait PeekMessages {
    /// Why the backend could not.
    type Error;

    /// Reads the messages that `id` names in `folder`; the flags of their envelopes stay as
    /// they are.
    fn peek_messages(&self, folder: &str, id: &Id) -> Result<Messages, Self::Error>;
}

/// Lists the folders of an account.
pub trait ListFolders {
    /// The folders that the backend has, in the order in which it lists them.
    spec fn folders(&self) -> Seq<Folder>;

    /// Lists the folders.
    fn list_folders(&self) -> (res: Vec<Folder>)
        ensures
            res@ == self.folders(),
    ;
}

} // verus!
