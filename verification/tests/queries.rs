use mml::backend::{Flags, ListFolders};
use mml::imap::{
    after_failure, read_first_line, Connection, Error, ImapAuthConfig, ImapClientBuilder,
    ImapConfig, ImapContextBuilder, ImapEncryptionKind, Mechanism, OAuth2Method, Recovery,
};
use mml::account::{AccountConfig, FolderAlias};
use mml::folder::{comes_before, list_aliases, Folder};
use mml::maildir::{
    list_page, ListEnvelopesOptions, ListMaildirEnvelopes, MaildirConfig, MaildirContextSync,
};
use mml::notmuch::{ListNotmuchFolders, NotmuchConfig, NotmuchContextBuilder, NotmuchContextSync};
use mml::search::{
    contains_text, Address, Envelope, Flag, ListEnvelopesFilter, SearchEmailsQuery,
    SearchEmailsQueryFilter,
};
use mml::text::{char_is_whitespace, chars_of, same_text, strip_cr, strip_signature, text_is_blank, to_decimal, trimmed_len};
use mml::watch::WatchNotifyConfig;
use std::sync::Arc;

fn envelope() -> Envelope {
    Envelope {
        id: "42".to_string(),
        flags: vec![Flag::Seen, Flag::Custom("important".to_string())],
        subject: "Plans for the week".to_string(),
        from: Address { name: Some("Alice Doe".to_string()), addr: "alice@localhost".to_string() },
        to: Address { name: None, addr: "bob@localhost".to_string() },
        date: 1_000,
    }
}

fn query(filter: SearchEmailsQueryFilter) -> SearchEmailsQuery {
    SearchEmailsQuery { filters: Some(filter), sorters: None }
}

fn s(text: &str) -> String {
    text.to_string()
}

#[test]
fn substring_search() {
    assert!(contains_text("hello", ""));
    assert!(contains_text("", ""));
    assert!(!contains_text("", "a"));
    assert!(contains_text("hello", "hello"));
    assert!(contains_text("hello", "llo"));
    assert!(contains_text("hello", "h"));
    assert!(!contains_text("hello", "hellos"));
    assert!(!contains_text("hello", "lol"));
    assert!(contains_text("aab", "ab"));
    assert!(contains_text("h\u{e9}llo", "\u{e9}l"));
}

#[test]
fn query_without_filter_matches() {
    assert!(SearchEmailsQuery { filters: None, sorters: None }.matches_maildir_search_query(&envelope()));
}

#[test]
fn query_on_dates() {
    let e = envelope();
    assert!(query(SearchEmailsQueryFilter::Before(1_000)).matches_maildir_search_query(&e));
    assert!(query(SearchEmailsQueryFilter::Before(1_001)).matches_maildir_search_query(&e));
    assert!(!query(SearchEmailsQueryFilter::Before(999)).matches_maildir_search_query(&e));
    assert!(!query(SearchEmailsQueryFilter::After(1_000)).matches_maildir_search_query(&e));
    assert!(query(SearchEmailsQueryFilter::After(999)).matches_maildir_search_query(&e));
}

#[test]
fn query_on_addresses_subject_body_and_flags() {
    let e = envelope();
    assert!(query(SearchEmailsQueryFilter::From(s("Doe"))).matches_maildir_search_query(&e));
    assert!(query(SearchEmailsQueryFilter::From(s("alice@"))).matches_maildir_search_query(&e));
    assert!(!query(SearchEmailsQueryFilter::From(s("bob"))).matches_maildir_search_query(&e));
    assert!(query(SearchEmailsQueryFilter::To(s("bob"))).matches_maildir_search_query(&e));
    assert!(!query(SearchEmailsQueryFilter::To(s("Bob"))).matches_maildir_search_query(&e));
    assert!(query(SearchEmailsQueryFilter::Subject(s("the week"))).matches_maildir_search_query(&e));
    assert!(!query(SearchEmailsQueryFilter::Subject(s("weekend"))).matches_maildir_search_query(&e));
    assert!(query(SearchEmailsQueryFilter::Body(s("anything"))).matches_maildir_search_query(&e));
    assert!(query(SearchEmailsQueryFilter::Keyword(s("seen"))).matches_maildir_search_query(&e));
    assert!(query(SearchEmailsQueryFilter::Keyword(s("port"))).matches_maildir_search_query(&e));
    assert!(!query(SearchEmailsQueryFilter::Keyword(s("draft"))).matches_maildir_search_query(&e));
}

#[test]
fn query_connectives() {
    let e = envelope();
    let yes = || Box::new(SearchEmailsQueryFilter::Subject(s("Plans")));
    let no = || Box::new(SearchEmailsQueryFilter::Subject(s("Nothing")));
    assert!(query(SearchEmailsQueryFilter::And(yes(), yes())).matches_maildir_search_query(&e));
    assert!(!query(SearchEmailsQueryFilter::And(yes(), no())).matches_maildir_search_query(&e));
    assert!(!query(SearchEmailsQueryFilter::And(no(), yes())).matches_maildir_search_query(&e));
    assert!(query(SearchEmailsQueryFilter::Or(no(), yes())).matches_maildir_search_query(&e));
    assert!(!query(SearchEmailsQueryFilter::Or(no(), no())).matches_maildir_search_query(&e));
    assert!(query(SearchEmailsQueryFilter::Not(no())).matches_maildir_search_query(&e));
    assert!(!query(SearchEmailsQueryFilter::Not(yes())).matches_maildir_search_query(&e));
}

#[test]
fn flag_names() {
    assert_eq!(Flag::Seen.name(), "seen");
    assert_eq!(Flag::Answered.name(), "answered");
    assert_eq!(Flag::Flagged.name(), "flagged");
    assert_eq!(Flag::Deleted.name(), "deleted");
    assert_eq!(Flag::Draft.name(), "draft");
    assert_eq!(Flag::Custom(s("todo")).name(), "todo");
    assert_eq!(Flags::single(Flag::Draft), Flags(vec![Flag::Draft]));
}

#[test]
fn filter_as_imap_search() {
    assert_eq!(ListEnvelopesFilter::Before(s("2024-01-31")).to_imap_search_query(), "BEFORE 2024-01-31");
    assert_eq!(ListEnvelopesFilter::After(s("2024-01-31")).to_imap_search_query(), "SINCE 2024-01-31");
    assert_eq!(ListEnvelopesFilter::From(s("alice")).to_imap_search_query(), "FROM alice");
    assert_eq!(ListEnvelopesFilter::To(s("bob")).to_imap_search_query(), "TO bob");
    assert_eq!(ListEnvelopesFilter::Subject(s("plans")).to_imap_search_query(), "SUBJECT plans");
    assert_eq!(ListEnvelopesFilter::Body(s("text")).to_imap_search_query(), "BODY text");
    assert_eq!(ListEnvelopesFilter::Keyword(s("seen")).to_imap_search_query(), "KEYWORD seen");
    assert_eq!(ListEnvelopesFilter::Folder(s("INBOX")).to_imap_search_query(), "");
    let nested = ListEnvelopesFilter::And(
        Box::new(ListEnvelopesFilter::Or(Box::new(ListEnvelopesFilter::From(s("alice"))), Box::new(ListEnvelopesFilter::To(s("bob"))))),
        Box::new(ListEnvelopesFilter::Not(Box::new(ListEnvelopesFilter::Subject(s("spam"))))),
    );
    assert_eq!(nested.to_imap_search_query(), "OR (FROM alice) (TO bob) NOT (SUBJECT spam)");
}

#[test]
fn text_primitives() {
    assert!(char_is_whitespace(' '));
    assert!(char_is_whitespace('\n'));
    assert!(char_is_whitespace('\u{b}'));
    assert!(char_is_whitespace('\u{85}'));
    assert!(char_is_whitespace('\u{3000}'));
    assert!(!char_is_whitespace('a'));
    assert!(!char_is_whitespace('\u{200b}'));
    assert!(!char_is_whitespace('\u{1c}'));
    for c in ['\0', 'x', ' ', '\u{1680}', '\u{2007}', '\u{2028}', '\u{205f}', '\u{feff}', '\u{e000}'] {
        assert_eq!(char_is_whitespace(c), c.is_whitespace());
    }
    assert_eq!(chars_of("h\u{e9}"), vec!['h', '\u{e9}']);
    assert!(same_text("abc", "abc"));
    assert!(!same_text("abc", "abd"));
    assert!(!same_text("abc", "ab"));
    assert_eq!(strip_cr(&chars_of("\ra\r\nb\r")), chars_of("a\nb"));
    assert_eq!(trimmed_len(&chars_of("ab  \n"), 0), 2);
    assert_eq!(trimmed_len(&chars_of("ab  \n"), 3), 3);
    assert_eq!(trimmed_len(&chars_of("  "), 0), 0);
    assert!(text_is_blank(&chars_of(" \t\r\n")));
    assert!(text_is_blank(&chars_of("")));
    assert!(!text_is_blank(&chars_of(" . ")));
    assert_eq!(strip_signature(chars_of("a-- \nb-- \nc")), chars_of("a-- \nb"));
    assert_eq!(strip_signature(chars_of("-- ")), chars_of("-- "));
    assert_eq!(to_decimal(0), vec!['0']);
    assert_eq!(to_decimal(907), vec!['9', '0', '7']);
    assert_eq!(to_decimal(usize::MAX).into_iter().collect::<String>(), usize::MAX.to_string());
}

fn imap_config(encryption: Option<ImapEncryptionKind>, auth: ImapAuthConfig) -> Arc<ImapConfig> {
    Arc::new(ImapConfig {
        host: s("localhost"),
        port: 993,
        encryption,
        login: s("bob"),
        auth,
        watch_timeout: None,
    })
}

#[test]
fn imap_builders() {
    let account = Arc::new(AccountConfig { name: s("bob"), folder_aliases: Vec::new() });
    let config = imap_config(Some(ImapEncryptionKind::Tls), ImapAuthConfig::Passwd);
    let ctx = ImapContextBuilder::new(account.clone(), config.clone());
    assert_eq!(ctx.account_config, account);
    assert_eq!(ctx.imap_config, config);
    assert_eq!(ctx.prebuilt_credentials, None);
    let client = ctx.client_builder();
    assert_eq!(client, ImapClientBuilder::new(config.clone(), None));
    let with = ImapClientBuilder::new(config.clone(), Some(s("secret")));
    assert_eq!(with.config, config);
    assert_eq!(with.credentials, Some(s("secret")));
}

#[test]
fn imap_connection_kind() {
    let passwd = ImapAuthConfig::Passwd;
    assert_eq!(ImapClientBuilder::new(imap_config(None, passwd), None).connection(), Connection::Insecure);
    assert_eq!(
        ImapClientBuilder::new(imap_config(Some(ImapEncryptionKind::Unencrypted), passwd), None).connection(),
        Connection::Insecure
    );
    assert_eq!(
        ImapClientBuilder::new(imap_config(Some(ImapEncryptionKind::StartTls), passwd), None).connection(),
        Connection::StartTls
    );
    assert_eq!(
        ImapClientBuilder::new(imap_config(Some(ImapEncryptionKind::Tls), passwd), None).connection(),
        Connection::Tls
    );
}

#[test]
fn imap_mechanism_must_be_offered() {
    let offered = vec![s("PLAIN"), s("XOAUTH2")];
    let plain = ImapClientBuilder::new(imap_config(None, ImapAuthConfig::Passwd), None);
    assert_eq!(plain.mechanism(offered.clone()), Ok(Mechanism::Plain));
    assert_eq!(
        plain.mechanism(vec![s("LOGIN")]),
        Err(Error::AuthenticatePlainNotSupportedError(vec![s("LOGIN")]))
    );
    let xoauth2 =
        ImapClientBuilder::new(imap_config(None, ImapAuthConfig::OAuth2(OAuth2Method::XOAuth2)), None);
    assert_eq!(xoauth2.mechanism(offered.clone()), Ok(Mechanism::XOAuth2));
    assert_eq!(
        xoauth2.mechanism(Vec::new()),
        Err(Error::AuthenticateXOAuth2NotSupportedError(Vec::new()))
    );
    let bearer = ImapClientBuilder::new(
        imap_config(None, ImapAuthConfig::OAuth2(OAuth2Method::OAuthBearer)),
        None,
    );
    assert_eq!(
        bearer.mechanism(offered.clone()),
        Err(Error::AuthenticateOAuthBearerNotSupportedError(offered))
    );
    assert_eq!(bearer.mechanism(vec![s("OAUTHBEARER")]), Ok(Mechanism::OAuthBearer));
}

#[test]
fn imap_secret() {
    let plain = ImapClientBuilder::new(imap_config(None, ImapAuthConfig::Passwd), None);
    assert_eq!(plain.secret("password\nsecond line\n"), Ok(s("password")));
    assert_eq!(plain.secret("password\r\n"), Ok(s("password")));
    assert_eq!(plain.secret("\nrest"), Ok(s("")));
    assert_eq!(plain.secret(""), Err(Error::GetPasswdEmptyImapError));
    let prebuilt = ImapClientBuilder::new(imap_config(None, ImapAuthConfig::Passwd), Some(s("pre\nbuilt")));
    assert_eq!(prebuilt.secret("password"), Ok(s("pre\nbuilt")));
    let token =
        ImapClientBuilder::new(imap_config(None, ImapAuthConfig::OAuth2(OAuth2Method::XOAuth2)), None);
    assert_eq!(token.secret("tok\nen"), Ok(s("tok\nen")));
    assert_eq!(token.secret(""), Ok(s("")));
}

#[test]
fn first_line_of_a_text() {
    for text in ["", "a", "a\n", "a\r\n", "a\r", "\r\n", "\n", "a\rb\nc", "ab\r\r\nc", "\r"] {
        assert_eq!(read_first_line(text), text.lines().next().map(|l| l.to_string()), "{text:?}");
    }
}

#[test]
fn notmuch_builder_and_notification() {
    let account = AccountConfig { name: s("bob"), folder_aliases: Vec::new() };
    let config = NotmuchConfig { db_path: s("~/mail") };
    let builder = NotmuchContextBuilder::new(account.clone(), config.clone());
    assert_eq!(builder.account_config, account);
    assert_eq!(builder.notmuch_config, config);
    let notify = WatchNotifyConfig::default();
    assert_eq!(notify, WatchNotifyConfig { summary: s(""), body: s("") });
}

fn dated(id: &str, date: i64, subject: &str) -> Envelope {
    Envelope {
        id: s(id),
        flags: Vec::new(),
        subject: s(subject),
        from: Address { name: None, addr: s("from@localhost") },
        to: Address { name: None, addr: s("to@localhost") },
        date,
    }
}

fn folder() -> Vec<Envelope> {
    vec![
        dated("a", 30, "report"),
        dated("b", 10, "notes"),
        dated("c", 50, "report two"),
        dated("d", 30, "notes two"),
        dated("e", 20, "report three"),
    ]
}

fn ids(list: &[Envelope]) -> Vec<String> {
    list.iter().map(|e| e.id.clone()).collect()
}

#[test]
fn pages_go_from_the_newest_to_the_oldest() {
    let all = list_page(folder(), None, "INBOX", 0, 0).unwrap();
    assert_eq!(ids(&all), ["c", "a", "d", "e", "b"]);
    let first = list_page(folder(), None, "INBOX", 0, 2).unwrap();
    assert_eq!(ids(&first), ["c", "a"]);
    let second = list_page(folder(), None, "INBOX", 1, 2).unwrap();
    assert_eq!(ids(&second), ["d", "e"]);
    let third = list_page(folder(), None, "INBOX", 2, 2).unwrap();
    assert_eq!(ids(&third), ["b"]);
    let big = list_page(folder(), None, "INBOX", 0, 50).unwrap();
    assert_eq!(ids(&big), ["c", "a", "d", "e", "b"]);
}

#[test]
fn page_after_the_last_envelope() {
    let at_end = list_page(folder(), None, "INBOX", 1, 5).unwrap();
    assert!(at_end.is_empty());
    let beyond = list_page(folder(), None, "Sent", 2, 3).unwrap_err();
    assert_eq!(beyond, mml::maildir::Error::GetEnvelopesOutOfBoundsError(s("Sent"), 7));
    let empty = list_page(Vec::new(), None, "INBOX", 0, 10).unwrap();
    assert!(empty.is_empty());
    let none = list_page(Vec::new(), None, "INBOX", 1, 10).unwrap_err();
    assert_eq!(none, mml::maildir::Error::GetEnvelopesOutOfBoundsError(s("INBOX"), 11));
}

#[test]
fn pages_hold_only_what_the_query_keeps() {
    let reports = query(SearchEmailsQueryFilter::Subject(s("report")));
    let first = list_page(folder(), Some(&reports), "INBOX", 0, 2).unwrap();
    assert_eq!(ids(&first), ["c", "a"]);
    let second = list_page(folder(), Some(&reports), "INBOX", 1, 2).unwrap();
    assert_eq!(ids(&second), ["e"]);
    let beyond = list_page(folder(), Some(&reports), "INBOX", 2, 2).unwrap_err();
    assert_eq!(beyond, mml::maildir::Error::GetEnvelopesOutOfBoundsError(s("INBOX"), 5));
}

#[test]
fn order_of_texts() {
    let texts = ["", "a", "ab", "abc", "b", "B", "a\u{e9}", "az", "\u{10000}", "\u{ffff}", "aa"];
    for a in texts {
        for b in texts {
            assert_eq!(comes_before(a, b), a < b, "{a:?} {b:?}");
        }
    }
}

fn alias(name: &str, alias: &str) -> FolderAlias {
    FolderAlias { name: s(name), alias: s(alias) }
}

fn folder_names(folders: &[Folder]) -> Vec<String> {
    folders.iter().map(|f| format!("{}={}", f.name, f.desc)).collect()
}

#[test]
fn folders_are_listed_from_the_last_name_to_the_first() {
    let aliases = vec![
        alias("inbox", "INBOX"),
        alias("sent", "Sent Items"),
        alias("archive", "All Mail"),
        alias("sent", "Outbox"),
        alias("Trash", "Bin"),
    ];
    let folders = list_aliases(&aliases);
    assert_eq!(
        folder_names(&folders),
        ["sent=Sent Items", "sent=Outbox", "inbox=INBOX", "archive=All Mail", "Trash=Bin"]
    );
    assert!(folders.iter().all(|f| f.kind.is_none()));
    assert!(list_aliases(&Vec::new()).is_empty());
}

#[test]
fn notmuch_folders_are_the_aliases_of_the_account() {
    let ctx = NotmuchContextSync {
        account_config: AccountConfig {
            name: s("bob"),
            folder_aliases: vec![alias("a", "Alpha"), alias("c", "Gamma"), alias("b", "Beta")],
        },
        notmuch_config: NotmuchConfig { db_path: s("~/mail") },
    };
    let folders = ListNotmuchFolders::new(&ctx).list_folders();
    assert_eq!(folder_names(&folders), ["c=Gamma", "b=Beta", "a=Alpha"]);
    let boxed: Box<dyn ListFolders + '_> = Box::new(ListNotmuchFolders::new(&ctx));
    assert_eq!(boxed.list_folders(), folders);
}

#[test]
fn a_failed_stream_is_answered_once_by_a_new_client() {
    assert_eq!(after_failure(true, false), Recovery::Rebuild);
    assert_eq!(after_failure(true, true), Recovery::GiveUp);
    assert_eq!(after_failure(false, false), Recovery::GiveUp);
    assert_eq!(after_failure(false, true), Recovery::GiveUp);
}

#[test]
fn maildir_feature_lists_the_page_asked_for() {
    let ctx = MaildirContextSync {
        account_config: AccountConfig { name: s("bob"), folder_aliases: Vec::new() },
        maildir_config: MaildirConfig { root_dir: s("~/Mail") },
    };
    let feature = ListMaildirEnvelopes::new(&ctx);
    let opts = ListEnvelopesOptions {
        page_size: 2,
        page: 1,
        query: Some(query(SearchEmailsQueryFilter::Subject(s("report")))),
    };
    let page = feature.list_envelopes("INBOX", folder(), &opts).unwrap();
    assert_eq!(ids(&page), ["e"]);
    let beyond = ListEnvelopesOptions { page_size: 4, page: 2, query: None };
    assert_eq!(
        feature.list_envelopes("INBOX", folder(), &beyond),
        Err(mml::maildir::Error::GetEnvelopesOutOfBoundsError(s("INBOX"), 9))
    );
}
