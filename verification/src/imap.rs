//! How a connection to an IMAP server is set up: which kind of connection to open, which
//! authentication mechanism to use, and which secret to present.

use crate::account::AccountConfig;
use crate::filter::{has_text, list_contains};
use crate::text::{chars_of, string_from_chars};
use std::sync::Arc;
use vstd::prelude::*;

verus! {

/// How the connection is protected.
#[derive(Clone, Copy, Debug, PartialEq, Eq)]
pub enum ImapEncryptionKind {
    Tls,
    StartTls,
    Unencrypted,
}

/// How an access token is presented.
#[derive(Clone, Copy, Debug, PartialEq, Eq)]
pub enum OAuth2Method {
    XOAuth2,
    OAuthBearer,
}

/// How the account authenticates.
#[derive(Clone, Copy, Debug, PartialEq, Eq)]
pub enum ImapAuthConfig {
    Passwd,
    OAuth2(OAuth2Method),
}

/// What is configured for an IMAP server.
#[derive(Clone, Debug, PartialEq, Eq)]
pub struct ImapConfig {
    pub host: String,
    pub port: u16,
    pub encryption: Option<ImapEncryptionKind>,
    pub login: String,
    pub auth: ImapAuthConfig,
    pub watch_timeout: Option<u64>,
}

/// The kind of connection to open.
#[derive(Clone, Copy, Debug, PartialEq, Eq)]
pub enum Connection {
    Insecure,
    StartTls,
    Tls,
}

/// An authentication mechanism.
#[derive(Clone, Copy, Debug, PartialEq, Eq)]
pub enum Mechanism {
    Plain,
    XOAuth2,
    OAuthBearer,
}

/// Why a connection cannot be set up.
#[derive(Clone, Debug, PartialEq, Eq)]
pub enum Error {
    /// The server does not offer `PLAIN`; it offers these mechanisms.
    AuthenticatePlainNotSupportedError(Vec<String>),
    /// The server does not offer `XOAUTH2`; it offers these mechanisms.
    AuthenticateXOAuth2NotSupportedError(Vec<String>),
    /// The server does not offer `OAUTHBEARER`; it offers these mechanisms.
    AuthenticateOAuthBearerNotSupportedError(Vec<String>),
    /// The password that was read is empty.
    GetPasswdEmptyImapError,
}

/// Builds the context of the IMAP backend.
#[derive(Clone, Debug, PartialEq, Eq)]
pub struct ImapContextBuilder {
    /// The account configuration.
    pub account_config: Arc<AccountConfig>,
    /// The IMAP configuration.
    pub imap_config: Arc<ImapConfig>,
    /// The credentials built ahead of the connection.
    pub prebuilt_credentials: Option<String>,
}

/// Builds clients from an IMAP configuration and, where they were built ahead, credentials.
#[derive(Clone, Debug, PartialEq, Eq)]
pub struct ImapClientBuilder {
    pub config: Arc<ImapConfig>,
    pub credentials: Option<String>,
}

/// The connection that a configuration asks for: unprotected where it names no protection.
pub open spec fn connection_of(config: ImapConfig) -> Connection {
    match config.encryption {
        Some(ImapEncryptionKind::Tls) => Connection::Tls,
        Some(ImapEncryptionKind::StartTls) => Connection::StartTls,
        _ => Connection::Insecure,
    }
}

/// The mechanism that a configuration authenticates with.
pub open spec fn mechanism_of(config: ImapConfig) -> Mechanism {
    match config.auth {
        ImapAuthConfig::Passwd => Mechanism::Plain,
        ImapAuthConfig::OAuth2(OAuth2Method::XOAuth2) => Mechanism::XOAuth2,
        ImapAuthConfig::OAuth2(OAuth2Method::OAuthBearer) => Mechanism::OAuthBearer,
    }
}

/// The name under which a server offers a mechanism.
pub open spec fn mechanism_name(mechanism: Mechanism) -> Seq<char> {
    match mechanism {
        Mechanism::Plain => "PLAIN"@,
        Mechanism::XOAuth2 => "XOAUTH2"@,
        Mechanism::OAuthBearer => "OAUTHBEARER"@,
    }
}

/// The position of the first line break of `s` from `i` on, or the length of `s`.
pub open spec fn line_end(s: Seq<char>, i: int) -> int
    decreases s.len() - i,
{
    if i < 0 || i >= s.len() {
        s.len() as int
    } else if s[i] == '\n' {
        i
    } else {
        line_end(s, i + 1)
    }
}

/// The first line of a text, without its line break nor the carriage return before it; none
/// where the text is empty.
pub open spec fn first_line(s: Seq<char>) -> Option<Seq<char>> {
    if s.len() == 0 {
        None
    } else {
        let end = line_end(s, 0);
        if 0 < end < s.len() && s[end - 1] == '\r' {
            Some(s.take(end - 1))
        } else {
            Some(s.take(end))
        }
    }
}

/// Reads the first line of a text.
pub fn read_first_line(text: &str) -> (res: Option<String>)
    ensures
        match res {
            Some(line) => first_line(text@) == Some(line@),
            None => first_line(text@) is None,
        },
{
    let mut chars = chars_of(text);
    if chars.len() == 0 {
        return None;
    }
    let mut end: usize = 0;
    while end < chars.len() && chars[end] != '\n'
        invariant
            end <= chars.len(),
            line_end(chars@, 0) == line_end(chars@, end as int),
        decreases chars.len() - end,
    {
        end += 1;
    }
    if 0 < end && end < chars.len() && chars[end - 1] == '\r' {
        chars.truncate(end - 1);
    } else {
        chars.truncate(end);
    }
    Some(string_from_chars(&chars))
}

impl ImapContextBuilder {
    /// A builder for an account and its IMAP configuration, with no credentials built yet.
    pub fn new(account_config: Arc<AccountConfig>, imap_config: Arc<ImapConfig>) -> (res: Self)
        ensures
            res.account_config == account_config,
            res.imap_config == imap_config,
            res.prebuilt_credentials is None,
    {
        ImapContextBuilder { account_config, imap_config, prebuilt_credentials: None }
    }

    /// The builder of the clients of this context: it has the IMAP configuration and the
    /// credentials built ahead.
    pub fn client_builder(self) -> (res: ImapClientBuilder)
        ensures
            res.config == self.imap_config,
            res.credentials == self.prebuilt_credentials,
    {
        ImapClientBuilder::new(self.imap_config, self.prebuilt_credentials)
    }
}

impl ImapClientBuilder {
    /// A builder of clients from a configuration and, where they were built ahead, credentials.
    pub fn new(config: Arc<ImapConfig>, credentials: Option<String>) -> (res: Self)
        ensures
            res.config == config,
            res.credentials == credentials,
    {
        ImapClientBuilder { config, credentials }
    }

    /// The kind of connection to open.
    pub fn connection(&self) -> (res: Connection)
        ensures
            res == connection_of(*self.config),
    {
        match &self.config.encryption {
            Some(ImapEncryptionKind::Tls) => Connection::Tls,
            Some(ImapEncryptionKind::StartTls) => Connection::StartTls,
            _ => Connection::Insecure,
        }
    }

    /// The mechanism to authenticate with, given the names of those that the server offers:
    /// the one that the configuration asks for, which the server must offer.
    pub fn mechanism(&self, offered: Vec<String>) -> (res: Result<Mechanism, Error>)
        ensures
            has_text(offered@, mechanism_name(mechanism_of(*self.config))) ==> res == Ok::<
                Mechanism,
                Error,
            >(mechanism_of(*self.config)),
            !has_text(offered@, mechanism_name(mechanism_of(*self.config))) ==> res == Err::<
                Mechanism,
                Error,
            >(
                match mechanism_of(*self.config) {
                    Mechanism::Plain => Error::AuthenticatePlainNotSupportedError(offered),
                    Mechanism::XOAuth2 => Error::AuthenticateXOAuth2NotSupportedError(offered),
                    Mechanism::OAuthBearer => Error::AuthenticateOAuthBearerNotSupportedError(
                        offered,
                    ),
                },
            ),
    {
        match &self.config.auth {
            ImapAuthConfig::Passwd => {
                if list_contains(&offered, "PLAIN") {
                    Ok(Mechanism::Plain)
                } else {
                    Err(Error::AuthenticatePlainNotSupportedError(offered))
                }
            },
            ImapAuthConfig::OAuth2(OAuth2Method::XOAuth2) => {
                if list_contains(&offered, "XOAUTH2") {
                    Ok(Mechanism::XOAuth2)
                } else {
                    Err(Error::AuthenticateXOAuth2NotSupportedError(offered))
                }
            },
            ImapAuthConfig::OAuth2(OAuth2Method::OAuthBearer) => {
                if list_contains(&offered, "OAUTHBEARER") {
                    Ok(Mechanism::OAuthBearer)
                } else {
                    Err(Error::AuthenticateOAuthBearerNotSupportedError(offered))
                }
            },
        }
    }

    /// The secret to present, given what was read from where the configuration keeps it: the
    /// credentials built ahead where there are any; else, for a password, the first line of
    /// what was read, which must not be empty; else the access token as it was read.
    pub fn secret(&self, read: &str) -> (res: Result<String, Error>)
        ensures
            match self.credentials {
                Some(secret) => res is Ok && res->Ok_0@ == secret@,
                None => match self.config.auth {
                    ImapAuthConfig::Passwd => match first_line(read@) {
                        Some(line) => res is Ok && res->Ok_0@ == line,
                        None => res == Err::<String, Error>(Error::GetPasswdEmptyImapError),
                    },
                    ImapAuthConfig::OAuth2(_) => res is Ok && res->Ok_0@ == read@,
                },
            },
    {
        match &self.credentials {
            Some(secret) => Ok(secret.clone()),
            None => match &self.config.auth {
                ImapAuthConfig::Passwd => match read_first_line(read) {
                    Some(line) => Ok(line),
                    None => Err(Error::GetPasswdEmptyImapError),
                },
                ImapAuthConfig::OAuth2(_) => Ok(string_from_chars(&chars_of(read))),
            },
        }
    }
}

/// What to do after a command to the server failed.
#[derive(Clone, Copy, Debug, PartialEq, Eq)]
pub enum Recovery {
    /// Build a new client and send the command once more.
    Rebuild,
    /// Give the failure to the caller.
    GiveUp,
}

/// What to do after a command failed: a failure of the stream is answered once by a new
/// client and a second try; any other failure, and any failure of the second try, is final.
pub fn after_failure(stream_failed: bool, retried: bool) -> (res: Recovery)
    ensures
        res == if stream_failed && !retried {
            Recovery::Rebuild
        } else {
            Recovery::GiveUp
        },
{
    if retried {
        Recovery::GiveUp
    } else if stream_failed {
        Recovery::Rebuild
    } else {
        Recovery::GiveUp
    }
}

} // verus!
