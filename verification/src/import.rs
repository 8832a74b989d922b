//! The import of a Telegram sticker pack into the state of a room, as a
//! state machine around the import backend.
//!
//! The machine decides; whoever drives it performs each action and hands
//! back the event that the action ended in.

use crate::db::{encode_media_spec, load_spec, AccountDataDatabase};
use crate::err::{texts, with_context};
use crate::json::printed;
use crate::pack::{pack_id, pack_id_spec};
use crate::worker::{Outcome, OutcomeView};
use vstd::prelude::*;

verus! {

/// The name of the pack that a pack address points to: what follows the
/// first of the three known beginnings of such an address.
pub open spec fn pack_name_spec(url: Seq<char>) -> Option<Seq<char>> {
    if "https://t.me/addstickers/"@.is_prefix_of(url) {
        Some(url.skip("https://t.me/addstickers/"@.len() as int))
    } else if "t.me/addstickers/"@.is_prefix_of(url) {
        Some(url.skip("t.me/addstickers/"@.len() as int))
    } else if "tg://addstickers?set="@.is_prefix_of(url) {
        Some(url.skip("tg://addstickers?set="@.len() as int))
    } else {
        None
    }
}

/// The text with which mstickerlib's `InvalidPackUrl` describes an address
/// that is none of a pack.
pub uninterp spec fn invalid_pack_url(url: Seq<char>) -> Seq<char>;

/// Calls `mstickerlib::tg::pack_url_to_name`, which strips the first of
/// the three known beginnings from the address; where the address has
/// none of them, the error is handed on as its text, referred to as
/// [`invalid_pack_url`].
#[verifier::external_body]
fn pack_url_to_name<'a>(url: &'a str) -> (name: Result<&'a str, String>)
    ensures
        match name {
            Ok(found) => pack_name_spec(url@) == Some(found@),
            Err(text) => pack_name_spec(url@) is None && text@ == invalid_pack_url(url@),
        },
{
    match mstickerlib::tg::pack_url_to_name(url) {
        Ok(name) => Ok(name),
        Err(err) => Err(err.to_string()),
    }
}

/// Why an import failed.
#[derive(Clone, Debug, PartialEq, Eq)]
pub enum ImportError {
    /// The address is none of a sticker pack; the text says so.
    InvalidUrl(String),
    /// The bot does not know its own user identifier.
    NoUserId,
    /// The bot has no access token.
    NoAccessToken,
    /// The cache of uploaded media could not be loaded.
    CacheLoad(Vec<String>),
    /// The pack could not be loaded from Telegram.
    Telegram(Vec<String>),
    /// The state of the room could not be written.
    StateWrite(Vec<String>),
}

/// The mathematical value of an [`ImportError`].
pub enum ImportErrorView {
    InvalidUrl(Seq<char>),
    NoUserId,
    NoAccessToken,
    CacheLoad(Seq<Seq<char>>),
    Telegram(Seq<Seq<char>>),
    StateWrite(Seq<Seq<char>>),
}

impl View for ImportError {
    type V = ImportErrorView;

    open spec fn view(&self) -> ImportErrorView {
        match self {
            ImportError::InvalidUrl(text) => ImportErrorView::InvalidUrl(text@),
            ImportError::NoUserId => ImportErrorView::NoUserId,
            ImportError::NoAccessToken => ImportErrorView::NoAccessToken,
            ImportError::CacheLoad(causes) => ImportErrorView::CacheLoad(texts(causes@)),
            ImportError::Telegram(causes) => ImportErrorView::Telegram(texts(causes@)),
            ImportError::StateWrite(causes) => ImportErrorView::StateWrite(texts(causes@)),
        }
    }
}

/// The messages of a failed import, outermost first.
pub open spec fn chain_spec(error: ImportErrorView) -> Seq<Seq<char>> {
    match error {
        ImportErrorView::InvalidUrl(text) => seq!["Invalid sticker pack url"@, text],
        ImportErrorView::NoUserId => seq!["Unable to obtain my own matrix user id"@],
        ImportErrorView::NoAccessToken => seq!["Unable to obtain my own matrix access token"@],
        ImportErrorView::CacheLoad(causes) => seq!["Failed to load database from account data"@]
            + causes,
        ImportErrorView::Telegram(causes) => seq![
            "Failed to load the sticker pack from telegram"@,
        ] + causes,
        ImportErrorView::StateWrite(causes) => seq![
            "Failed to add the sticker pack to the room"@,
        ] + causes,
    }
}

impl ImportError {
    /// The messages of the failure, outermost first.
    pub fn chain(self) -> (chain: Vec<String>)
        ensures
            texts(chain@) == chain_spec(self@),
    {
        match self {
            ImportError::InvalidUrl(text) => {
                let mut causes: Vec<String> = Vec::new();
                let ghost cause = text@;
                causes.push(text);
                assert(texts(causes@) == seq![cause]);
                let chain = with_context("Invalid sticker pack url", causes);
                assert(texts(chain@) == seq!["Invalid sticker pack url"@, cause]);
                chain
            },
            ImportError::NoUserId => {
                let chain = with_context("Unable to obtain my own matrix user id", Vec::new());
                assert(texts(chain@) == seq!["Unable to obtain my own matrix user id"@]);
                chain
            },
            ImportError::NoAccessToken => {
                let chain = with_context(
                    "Unable to obtain my own matrix access token",
                    Vec::new(),
                );
                assert(texts(chain@) == seq!["Unable to obtain my own matrix access token"@]);
                chain
            },
            ImportError::CacheLoad(causes) => with_context(
                "Failed to load database from account data",
                causes,
            ),
            ImportError::Telegram(causes) => with_context(
                "Failed to load the sticker pack from telegram",
                causes,
            ),
            ImportError::StateWrite(causes) => with_context(
                "Failed to add the sticker pack to the room",
                causes,
            ),
        }
    }
}

/// How an import ended.
#[derive(Clone, Debug, PartialEq, Eq)]
pub enum ImportResult {
    /// The pack was written to the state of the room; this many of its
    /// stickers could not be imported and were left out.
    Imported(usize),
    Failed(ImportError),
}

/// The mathematical value of an [`ImportResult`].
pub enum ImportResultView {
    Imported(usize),
    Failed(ImportErrorView),
}

impl View for ImportResult {
    type V = ImportResultView;

    open spec fn view(&self) -> ImportResultView {
        match self {
            ImportResult::Imported(skipped) => ImportResultView::Imported(*skipped),
            ImportResult::Failed(error) => ImportResultView::Failed(error@),
        }
    }
}

/// What the worker is told about an import that ended so: a pack that
/// was imported in part counts as success, and every failure is final and
/// comes with its chain of messages.
pub open spec fn outcome_spec(result: ImportResultView) -> OutcomeView {
    match result {
        ImportResultView::Imported(_) => OutcomeView::Succeeded,
        ImportResultView::Failed(error) => OutcomeView::Failed(chain_spec(error)),
    }
}

impl ImportResult {
    /// What the worker is told about the import.
    pub fn outcome(self) -> (outcome: Outcome)
        ensures
            outcome@ == outcome_spec(self@),
    {
        match self {
            ImportResult::Imported(_) => Outcome::Succeeded,
            ImportResult::Failed(error) => Outcome::Failed(error.chain()),
        }
    }
}

/// What an import works on: the name of the pack at Telegram and the
/// identifier under which the room keeps it.
#[derive(Clone, Debug, PartialEq, Eq)]
pub struct Target {
    pub name: String,
    pub id: String,
}

/// The mathematical value of a [`Target`].
pub struct TargetView {
    pub name: Seq<char>,
    pub id: Seq<char>,
}

impl View for Target {
    type V = TargetView;

    open spec fn view(&self) -> TargetView {
        TargetView { name: self.name@, id: self.id@ }
    }
}

/// Where an import stands.
pub enum Import {
    /// Waiting for the cache of uploaded media to be loaded.
    Loading(Target),
    /// Waiting for the pack to be loaded from Telegram.
    Fetching(Target, AccountDataDatabase),
    /// Waiting for the backend to import the pack; it has the cache.
    Importing(Target),
    /// Waiting for the pack to be written to the state of the room.
    Writing(AccountDataDatabase, usize),
    /// Waiting for the cache to be written back; the import ended so.
    Storing(ImportResult),
    /// At its end.
    Finished,
}

/// The mathematical value of an [`Import`]; a cache is given by its
/// addresses and the order of its hashes.
pub enum ImportView {
    Loading(TargetView),
    Fetching(TargetView, Map<Seq<u8>, Seq<char>>, Seq<Seq<u8>>),
    Importing(TargetView),
    Writing(Map<Seq<u8>, Seq<char>>, Seq<Seq<u8>>, usize),
    Storing(ImportResultView),
    Finished,
}

impl View for Import {
    type V = ImportView;

    open spec fn view(&self) -> ImportView {
        match self {
            Import::Loading(target) => ImportView::Loading(target@),
            Import::Fetching(target, db) => ImportView::Fetching(target@, db@, db.order()),
            Import::Importing(target) => ImportView::Importing(target@),
            Import::Writing(db, skipped) => ImportView::Writing(db@, db.order(), *skipped),
            Import::Storing(result) => ImportView::Storing(result@),
            Import::Finished => ImportView::Finished,
        }
    }
}

/// What happened since the last action of an import.
pub enum ImportEvent {
    /// The store gave this text for the cache, or has none.
    CacheLoaded(Option<Vec<u8>>),
    /// The store could not be reached.
    StoreFailed(Vec<String>),
    /// The pack was loaded from Telegram.
    PackFetched,
    /// The pack could not be loaded from Telegram.
    FetchFailed(Vec<String>),
    /// The backend imported the pack and hands the cache back; this many
    /// stickers were left out.
    Imported(AccountDataDatabase, usize),
    /// The pack was written to the state of the room.
    PackWritten,
    /// The state of the room could not be written.
    StateFailed(Vec<String>),
    /// The cache was written back.
    CacheStored,
}

/// The mathematical value of an [`ImportEvent`].
pub enum ImportEventView {
    CacheLoaded(Option<Seq<u8>>),
    StoreFailed(Seq<Seq<char>>),
    PackFetched,
    FetchFailed(Seq<Seq<char>>),
    Imported(Map<Seq<u8>, Seq<char>>, Seq<Seq<u8>>, usize),
    PackWritten,
    StateFailed(Seq<Seq<char>>),
    CacheStored,
}

impl View for ImportEvent {
    type V = ImportEventView;

    open spec fn view(&self) -> ImportEventView {
        match self {
            ImportEvent::CacheLoaded(stored) => ImportEventView::CacheLoaded(
                match stored {
                    Some(bytes) => Some(bytes@),
                    None => None,
                },
            ),
            ImportEvent::StoreFailed(causes) => ImportEventView::StoreFailed(texts(causes@)),
            ImportEvent::PackFetched => ImportEventView::PackFetched,
            ImportEvent::FetchFailed(causes) => ImportEventView::FetchFailed(texts(causes@)),
            ImportEvent::Imported(db, skipped) => ImportEventView::Imported(
                db@,
                db.order(),
                *skipped,
            ),
            ImportEvent::PackWritten => ImportEventView::PackWritten,
            ImportEvent::StateFailed(causes) => ImportEventView::StateFailed(texts(causes@)),
            ImportEvent::CacheStored => ImportEventView::CacheStored,
        }
    }
}

/// What an import asks for next.
pub enum ImportAction {
    /// Read the cache of uploaded media from the store.
    LoadCache,
    /// Load the pack with this name from Telegram.
    FetchPack(String),
    /// Import the loaded pack, with this cache to ask and to fill.
    ImportPack(AccountDataDatabase),
    /// Write the imported pack to the state of the room under this
    /// identifier.
    WritePack(String),
    /// Write this text back as the cache; a failure to do so is logged and
    /// goes on as `CacheStored`.
    StoreCache(Vec<u8>),
    /// The import is over.
    Finish(ImportResult),
    /// Nothing: the event was none that the import waits for.
    Nothing,
}

/// The mathematical value of an [`ImportAction`].
pub enum ImportActionView {
    LoadCache,
    FetchPack(Seq<char>),
    ImportPack(Map<Seq<u8>, Seq<char>>, Seq<Seq<u8>>),
    WritePack(Seq<char>),
    StoreCache(Seq<u8>),
    Finish(ImportResultView),
    Nothing,
}

impl View for ImportAction {
    type V = ImportActionView;

    open spec fn view(&self) -> ImportActionView {
        match self {
            ImportAction::LoadCache => ImportActionView::LoadCache,
            ImportAction::FetchPack(name) => ImportActionView::FetchPack(name@),
            ImportAction::ImportPack(db) => ImportActionView::ImportPack(db@, db.order()),
            ImportAction::WritePack(id) => ImportActionView::WritePack(id@),
            ImportAction::StoreCache(text) => ImportActionView::StoreCache(text@),
            ImportAction::Finish(result) => ImportActionView::Finish(result@),
            ImportAction::Nothing => ImportActionView::Nothing,
        }
    }
}

/// How an import begins: with the cache, for the pack that the address
/// names; or not at all, where the address names none or the bot does not
/// know who it is.
pub open spec fn start_spec(url: Seq<char>, has_user_id: bool, has_access_token: bool) -> (
    ImportView,
    ImportActionView,
) {
    match pack_name_spec(url) {
        None => (
            ImportView::Finished,
            ImportActionView::Finish(
                ImportResultView::Failed(ImportErrorView::InvalidUrl(invalid_pack_url(url))),
            ),
        ),
        Some(name) => if !has_user_id {
            (
                ImportView::Finished,
                ImportActionView::Finish(ImportResultView::Failed(ImportErrorView::NoUserId)),
            )
        } else if !has_access_token {
            (
                ImportView::Finished,
                ImportActionView::Finish(
                    ImportResultView::Failed(ImportErrorView::NoAccessToken),
                ),
            )
        } else {
            (
                ImportView::Loading(TargetView { name, id: pack_id_spec(name) }),
                ImportActionView::LoadCache,
            )
        },
    }
}

/// How an import that has the cache ends: the cache is written back,
/// whether the import succeeded or not, and then the result is given.
pub open spec fn ends(
    urls: Map<Seq<u8>, Seq<char>>,
    order: Seq<Seq<u8>>,
    result: ImportResultView,
) -> (ImportView, ImportActionView) {
    (
        ImportView::Storing(result),
        ImportActionView::StoreCache(printed(encode_media_spec(urls, order))),
    )
}

/// The rule of an import: the state and the action that follow from a
/// state and an event. An event that the state does not wait for changes
/// nothing.
pub open spec fn step_spec(state: ImportView, event: ImportEventView) -> (
    ImportView,
    ImportActionView,
) {
    match (state, event) {
        (ImportView::Loading(target), ImportEventView::CacheLoaded(stored)) => (
            ImportView::Fetching(target, load_spec(stored).0, load_spec(stored).1),
            ImportActionView::FetchPack(target.name),
        ),
        (ImportView::Loading(_), ImportEventView::StoreFailed(causes)) => (
            ImportView::Finished,
            ImportActionView::Finish(
                ImportResultView::Failed(ImportErrorView::CacheLoad(causes)),
            ),
        ),
        (ImportView::Fetching(target, urls, order), ImportEventView::PackFetched) => (
            ImportView::Importing(target),
            ImportActionView::ImportPack(urls, order),
        ),
        (ImportView::Fetching(_, urls, order), ImportEventView::FetchFailed(causes)) => ends(
            urls,
            order,
            ImportResultView::Failed(ImportErrorView::Telegram(causes)),
        ),
        (ImportView::Importing(target), ImportEventView::Imported(urls, order, skipped)) => (
            ImportView::Writing(urls, order, skipped),
            ImportActionView::WritePack(target.id),
        ),
        (ImportView::Writing(urls, order, skipped), ImportEventView::PackWritten) => ends(
            urls,
            order,
            ImportResultView::Imported(skipped),
        ),
        (ImportView::Writing(urls, order, _), ImportEventView::StateFailed(causes)) => ends(
            urls,
            order,
            ImportResultView::Failed(ImportErrorView::StateWrite(causes)),
        ),
        (ImportView::Storing(result), ImportEventView::CacheStored) => (
            ImportView::Finished,
            ImportActionView::Finish(result),
        ),
        _ => (state, ImportActionView::Nothing),
    }
}

fn fail(error: ImportError) -> (next: (Import, ImportAction))
    ensures
        next.0@ == ImportView::Finished,
        next.1@ == ImportActionView::Finish(ImportResultView::Failed(error@)),
{
    (Import::Finished, ImportAction::Finish(ImportResult::Failed(error)))
}

fn end(db: AccountDataDatabase, result: ImportResult) -> (next: (Import, ImportAction))
    ensures
        (next.0@, next.1@) == ends(db@, db.order(), result@),
{
    let text = db.store();
    (Import::Storing(result), ImportAction::StoreCache(text))
}

impl Import {
    /// The import of the pack at the address `url`, and its first action.
    /// `has_user_id` and `has_access_token` say whether the bot knows its
    /// own user identifier and has an access token.
    pub fn start(url: &str, has_user_id: bool, has_access_token: bool) -> (next: (
        Import,
        ImportAction,
    ))
        ensures
            (next.0@, next.1@) == start_spec(url@, has_user_id, has_access_token),
    {
        let name = match pack_url_to_name(url) {
            Ok(name) => name,
            Err(text) => {
                return fail(ImportError::InvalidUrl(text));
            },
        };
        if !has_user_id {
            return fail(ImportError::NoUserId);
        }
        if !has_access_token {
            return fail(ImportError::NoAccessToken);
        }
        let id = pack_id(name);
        (Import::Loading(Target { name: name.to_owned(), id }), ImportAction::LoadCache)
    }

    /// Takes `event` in: the state that follows, and what is to be done.
    pub fn step(self, event: ImportEvent) -> (next: (Import, ImportAction))
        ensures
            (next.0@, next.1@) == step_spec(self@, event@),
    {
        match (self, event) {
            (Import::Loading(target), ImportEvent::CacheLoaded(stored)) => {
                let db = match &stored {
                    Some(bytes) => AccountDataDatabase::load(Some(bytes.as_slice())),
                    None => AccountDataDatabase::load(None),
                };
                let name = target.name.clone();
                (Import::Fetching(target, db), ImportAction::FetchPack(name))
            },
            (Import::Loading(_), ImportEvent::StoreFailed(causes)) => fail(
                ImportError::CacheLoad(causes),
            ),
            (Import::Fetching(target, db), ImportEvent::PackFetched) => (
                Import::Importing(target),
                ImportAction::ImportPack(db),
            ),
            (Import::Fetching(_, db), ImportEvent::FetchFailed(causes)) => end(
                db,
                ImportResult::Failed(ImportError::Telegram(causes)),
            ),
            (Import::Importing(target), ImportEvent::Imported(db, skipped)) => (
                Import::Writing(db, skipped),
                ImportAction::WritePack(target.id),
            ),
            (Import::Writing(db, skipped), ImportEvent::PackWritten) => end(
                db,
                ImportResult::Imported(skipped),
            ),
            (Import::Writing(db, _), ImportEvent::StateFailed(causes)) => end(
                db,
                ImportResult::Failed(ImportError::StateWrite(causes)),
            ),
            (Import::Storing(result), ImportEvent::CacheStored) => (
                Import::Finished,
                ImportAction::Finish(result),
            ),
            (state, _) => (state, ImportAction::Nothing),
        }
    }
}

/// Written back, win or lose: once the cache has been loaded, an import
/// ends only after it has asked for the cache to be written back, whether
/// the pack was imported or not.
pub proof fn lemma_cache_is_written_back(state: ImportView, event: ImportEventView)
    ensures
        step_spec(state, event).1 is Finish ==> state is Storing || (state is Loading && event
            is StoreFailed),
        step_spec(state, event).0 is Storing && !(state is Storing) ==> step_spec(
            state,
            event,
        ).1 is StoreCache && (state is Fetching || state is Writing),
        state is Writing && step_spec(state, event).1 is StoreCache ==> step_spec(
            state,
            event,
        ).1 == ImportActionView::StoreCache(
            printed(encode_media_spec(state->Writing_0, state->Writing_1)),
        ),
{
}

} // verus!
