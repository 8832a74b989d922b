//! The migration of a sticker pack from a fetched document into the state
//! of a room, as a state machine.
//!
//! The machine decides; whoever drives it performs each action and hands
//! back the event that the action ended in.

use crate::err::{texts, with_context};
use crate::pack::{
    maunium_pack, pack_id, pack_id_spec, parse_maunium, ponies_spec, ponies_text, MauniumPack,
    MauniumPackView, PoniesPack, PoniesPackView,
};
use crate::worker::{Outcome, OutcomeView};
use vstd::prelude::*;

verus! {

/// The largest document, in bytes, that a migration takes.
pub const MAX_CONTENT_LENGTH: usize = 100 * 1024;

/// The media type that the document is asked for in.
pub const ACCEPT: &'static str = "application/json";

/// The name under which the bot asks for the document.
pub const USER_AGENT: &'static str = "tg2mx_bot";

/// Why a migration failed.
#[derive(Clone, Debug, PartialEq, Eq)]
pub enum MigrateError {
    /// The document could not be fetched.
    Download(Vec<String>),
    /// The document is larger than [`MAX_CONTENT_LENGTH`].
    TooLarge,
    /// The document describes no sticker pack.
    Malformed(String),
    /// The state of the room could not be read.
    StateRead(Vec<String>),
    /// The state of the room could not be written.
    StateWrite(Vec<String>),
}

/// The mathematical value of a [`MigrateError`].
pub enum MigrateErrorView {
    Download(Seq<Seq<char>>),
    TooLarge,
    Malformed(Seq<char>),
    StateRead(Seq<Seq<char>>),
    StateWrite(Seq<Seq<char>>),
}

impl View for MigrateError {
    type V = MigrateErrorView;

    open spec fn view(&self) -> MigrateErrorView {
        match self {
            MigrateError::Download(causes) => MigrateErrorView::Download(texts(causes@)),
            MigrateError::TooLarge => MigrateErrorView::TooLarge,
            MigrateError::Malformed(text) => MigrateErrorView::Malformed(text@),
            MigrateError::StateRead(causes) => MigrateErrorView::StateRead(texts(causes@)),
            MigrateError::StateWrite(causes) => MigrateErrorView::StateWrite(texts(causes@)),
        }
    }
}

/// The messages of a failed migration, outermost first: what the
/// migration was doing, then why that failed.
pub open spec fn chain_spec(error: MigrateErrorView) -> Seq<Seq<char>> {
    match error {
        MigrateErrorView::Download(causes) => seq!["Failed to download maunium sticker pack"@]
            + causes,
        MigrateErrorView::TooLarge => seq!["Maximum content length exceeded"@],
        MigrateErrorView::Malformed(text) => seq![
            "Failed to parse maunium sticker pack"@,
            text,
        ],
        MigrateErrorView::StateRead(causes) => seq![
            "Failed to check if sticker pack was already added to the room"@,
        ] + causes,
        MigrateErrorView::StateWrite(causes) => seq![
            "Failed to add the sticker pack to the room"@,
        ] + causes,
    }
}

impl MigrateError {
    /// The messages of the failure, outermost first.
    pub fn chain(self) -> (chain: Vec<String>)
        ensures
            texts(chain@) == chain_spec(self@),
    {
        match self {
            MigrateError::Download(causes) => with_context(
                "Failed to download maunium sticker pack",
                causes,
            ),
            MigrateError::TooLarge => {
                let chain = with_context("Maximum content length exceeded", Vec::new());
                assert(texts(chain@) == seq!["Maximum content length exceeded"@]);
                chain
            },
            MigrateError::Malformed(text) => {
                let mut causes: Vec<String> = Vec::new();
                let ghost cause = text@;
                causes.push(text);
                assert(texts(causes@) == seq![cause]);
                let chain = with_context("Failed to parse maunium sticker pack", causes);
                assert(texts(chain@) == seq!["Failed to parse maunium sticker pack"@, cause]);
                chain
            },
            MigrateError::StateRead(causes) => with_context(
                "Failed to check if sticker pack was already added to the room",
                causes,
            ),
            MigrateError::StateWrite(causes) => with_context(
                "Failed to add the sticker pack to the room",
                causes,
            ),
        }
    }
}

/// How a migration ended.
#[derive(Clone, Debug, PartialEq, Eq)]
pub enum MigrateResult {
    /// The pack was written to the state of the room.
    Migrated,
    /// The room has a pack under this identifier already; nothing was
    /// written.
    Skipped,
    Failed(MigrateError),
}

/// The mathematical value of a [`MigrateResult`].
pub enum MigrateResultView {
    Migrated,
    Skipped,
    Failed(MigrateErrorView),
}

impl View for MigrateResult {
    type V = MigrateResultView;

    open spec fn view(&self) -> MigrateResultView {
        match self {
            MigrateResult::Migrated => MigrateResultView::Migrated,
            MigrateResult::Skipped => MigrateResultView::Skipped,
            MigrateResult::Failed(error) => MigrateResultView::Failed(error@),
        }
    }
}

/// What the worker is told about a migration that ended so: a pack that
/// was there already counts as success, and every failure is final and
/// comes with its chain of messages.
pub open spec fn outcome_spec(result: MigrateResultView) -> OutcomeView {
    match result {
        MigrateResultView::Migrated => OutcomeView::Succeeded,
        MigrateResultView::Skipped => OutcomeView::Succeeded,
        MigrateResultView::Failed(error) => OutcomeView::Failed(chain_spec(error)),
    }
}

impl MigrateResult {
    /// What the worker is told about the migration.
    pub fn outcome(self) -> (outcome: Outcome)
        ensures
            outcome@ == outcome_spec(self@),
    {
        match self {
            MigrateResult::Migrated => Outcome::Succeeded,
            MigrateResult::Skipped => Outcome::Succeeded,
            MigrateResult::Failed(error) => Outcome::Failed(error.chain()),
        }
    }
}

/// Where a migration stands.
pub enum Migration {
    /// Waiting for the response to the request.
    Requesting,
    /// Waiting for the next part of the document; this much is there.
    Receiving(Vec<u8>),
    /// Waiting to learn whether the room has a pack under the identifier.
    Checking(String, PoniesPack),
    /// Waiting for the pack to be written.
    Writing,
    /// At its end.
    Finished,
}

/// The mathematical value of a [`Migration`].
pub enum MigrationView {
    Requesting,
    Receiving(Seq<u8>),
    Checking(Seq<char>, PoniesPackView),
    Writing,
    Finished,
}

impl View for Migration {
    type V = MigrationView;

    open spec fn view(&self) -> MigrationView {
        match self {
            Migration::Requesting => MigrationView::Requesting,
            Migration::Receiving(bytes) => MigrationView::Receiving(bytes@),
            Migration::Checking(id, pack) => MigrationView::Checking(id@, pack@),
            Migration::Writing => MigrationView::Writing,
            Migration::Finished => MigrationView::Finished,
        }
    }
}

/// What happened since the last action of a migration.
#[derive(Clone, Debug, PartialEq, Eq)]
pub enum MigrateEvent {
    /// The response began; it declares this length, or none.
    Response(Option<u64>),
    /// A further part of the document arrived.
    Chunk(Vec<u8>),
    /// The document is complete.
    BodyEnd,
    /// The request or the transfer failed.
    NetworkFailed(Vec<String>),
    /// The state of the room was read: it has a pack under the identifier,
    /// or has none.
    PackState(bool),
    /// The state of the room could not be reached.
    StateFailed(Vec<String>),
    /// The pack was written.
    PackWritten,
}

/// The mathematical value of a [`MigrateEvent`].
pub enum MigrateEventView {
    Response(Option<u64>),
    Chunk(Seq<u8>),
    BodyEnd,
    NetworkFailed(Seq<Seq<char>>),
    PackState(bool),
    StateFailed(Seq<Seq<char>>),
    PackWritten,
}

impl View for MigrateEvent {
    type V = MigrateEventView;

    open spec fn view(&self) -> MigrateEventView {
        match self {
            MigrateEvent::Response(length) => MigrateEventView::Response(*length),
            MigrateEvent::Chunk(bytes) => MigrateEventView::Chunk(bytes@),
            MigrateEvent::BodyEnd => MigrateEventView::BodyEnd,
            MigrateEvent::NetworkFailed(causes) => MigrateEventView::NetworkFailed(
                texts(causes@),
            ),
            MigrateEvent::PackState(present) => MigrateEventView::PackState(*present),
            MigrateEvent::StateFailed(causes) => MigrateEventView::StateFailed(texts(causes@)),
            MigrateEvent::PackWritten => MigrateEventView::PackWritten,
        }
    }
}

/// What a migration asks for next.
#[derive(Clone, Debug, PartialEq, Eq)]
pub enum MigrateAction {
    /// Request the document at this address, with the headers [`ACCEPT`]
    /// and [`USER_AGENT`].
    Fetch(String),
    /// Read the next part of the document.
    ReadChunk,
    /// Look up the pack that the room keeps under this identifier.
    ReadPack(String),
    /// Write this text as the pack that the room keeps under this
    /// identifier.
    WritePack(String, Vec<u8>),
    /// The migration is over.
    Finish(MigrateResult),
    /// Nothing: the event was none that the migration waits for.
    Nothing,
}

/// The mathematical value of a [`MigrateAction`].
pub enum MigrateActionView {
    Fetch(Seq<char>),
    ReadChunk,
    ReadPack(Seq<char>),
    WritePack(Seq<char>, Seq<u8>),
    Finish(MigrateResultView),
    Nothing,
}

impl View for MigrateAction {
    type V = MigrateActionView;

    open spec fn view(&self) -> MigrateActionView {
        match self {
            MigrateAction::Fetch(url) => MigrateActionView::Fetch(url@),
            MigrateAction::ReadChunk => MigrateActionView::ReadChunk,
            MigrateAction::ReadPack(id) => MigrateActionView::ReadPack(id@),
            MigrateAction::WritePack(id, text) => MigrateActionView::WritePack(id@, text@),
            MigrateAction::Finish(result) => MigrateActionView::Finish(result@),
            MigrateAction::Nothing => MigrateActionView::Nothing,
        }
    }
}

/// How a migration ends with this failure.
pub open spec fn fails(error: MigrateErrorView) -> (MigrationView, MigrateActionView) {
    (MigrationView::Finished, MigrateActionView::Finish(MigrateResultView::Failed(error)))
}

/// What follows once the fetched document has been read as `pack`: the
/// room is asked for the pack's identifier, or the migration fails where
/// the document describes no pack.
pub open spec fn plan_spec(pack: Result<MauniumPackView, Seq<char>>) -> (
    MigrationView,
    MigrateActionView,
) {
    match pack {
        Ok(read) => (
            MigrationView::Checking(pack_id_spec(read.id), ponies_spec(read.title, read.stickers)),
            MigrateActionView::ReadPack(pack_id_spec(read.id)),
        ),
        Err(text) => fails(MigrateErrorView::Malformed(text)),
    }
}

/// The rule of a migration: the state and the action that follow from a
/// state and an event.
///
/// A document that declares more than [`MAX_CONTENT_LENGTH`] bytes, or
/// that grows beyond them while it arrives, ends the migration. A pack
/// that the room has already is not written again. An event that the
/// state does not wait for changes nothing.
pub open spec fn step_spec(state: MigrationView, event: MigrateEventView) -> (
    MigrationView,
    MigrateActionView,
) {
    match (state, event) {
        (MigrationView::Requesting, MigrateEventView::Response(length)) => if length is Some
            && length->0 > MAX_CONTENT_LENGTH {
            fails(MigrateErrorView::TooLarge)
        } else {
            (MigrationView::Receiving(Seq::empty()), MigrateActionView::ReadChunk)
        },
        (MigrationView::Requesting, MigrateEventView::NetworkFailed(causes)) => fails(
            MigrateErrorView::Download(causes),
        ),
        (MigrationView::Receiving(bytes), MigrateEventView::Chunk(chunk)) => if bytes.len()
            + chunk.len() > MAX_CONTENT_LENGTH {
            fails(MigrateErrorView::TooLarge)
        } else {
            (MigrationView::Receiving(bytes + chunk), MigrateActionView::ReadChunk)
        },
        (MigrationView::Receiving(bytes), MigrateEventView::BodyEnd) => plan_spec(
            maunium_pack(bytes),
        ),
        (MigrationView::Receiving(_), MigrateEventView::NetworkFailed(causes)) => fails(
            MigrateErrorView::Download(causes),
        ),
        (MigrationView::Checking(id, pack), MigrateEventView::PackState(present)) => if present {
            (MigrationView::Finished, MigrateActionView::Finish(MigrateResultView::Skipped))
        } else {
            (MigrationView::Writing, MigrateActionView::WritePack(id, ponies_text(pack)))
        },
        (MigrationView::Checking(_, _), MigrateEventView::StateFailed(causes)) => fails(
            MigrateErrorView::StateRead(causes),
        ),
        (MigrationView::Writing, MigrateEventView::PackWritten) => (
            MigrationView::Finished,
            MigrateActionView::Finish(MigrateResultView::Migrated),
        ),
        (MigrationView::Writing, MigrateEventView::StateFailed(causes)) => fails(
            MigrateErrorView::StateWrite(causes),
        ),
        _ => (state, MigrateActionView::Nothing),
    }
}

fn fail(error: MigrateError) -> (next: (Migration, MigrateAction))
    ensures
        (next.0@, next.1@) == fails(error@),
{
    (Migration::Finished, MigrateAction::Finish(MigrateResult::Failed(error)))
}

impl Migration {
    /// The migration of the document at `url`, and its first action.
    pub fn start(url: &str) -> (next: (Migration, MigrateAction))
        ensures
            next.0@ == MigrationView::Requesting,
            next.1@ == MigrateActionView::Fetch(url@),
    {
        (Migration::Requesting, MigrateAction::Fetch(url.to_owned()))
    }

    /// What follows once the fetched document has been read as `pack`.
    pub fn plan(pack: Result<MauniumPack, String>) -> (next: (Migration, MigrateAction))
        ensures
            (next.0@, next.1@) == plan_spec(
                match pack {
                    Ok(read) => Ok(read@),
                    Err(text) => Err(text@),
                },
            ),
    {
        match pack {
            Ok(read) => {
                let id = pack_id(read.id.as_str());
                let ponies = PoniesPack::from_maunium(&read);
                (Migration::Checking(id.clone(), ponies), MigrateAction::ReadPack(id))
            },
            Err(text) => fail(MigrateError::Malformed(text)),
        }
    }

    /// Takes `event` in: the state that follows, and what is to be done.
    pub fn step(self, event: MigrateEvent) -> (next: (Migration, MigrateAction))
        ensures
            (next.0@, next.1@) == step_spec(self@, event@),
    {
        match (self, event) {
            (Migration::Requesting, MigrateEvent::Response(length)) => {
                let declared = match length {
                    Some(declared) => declared,
                    None => 0,
                };
                if declared > MAX_CONTENT_LENGTH as u64 {
                    fail(MigrateError::TooLarge)
                } else {
                    (Migration::Receiving(Vec::new()), MigrateAction::ReadChunk)
                }
            },
            (Migration::Requesting, MigrateEvent::NetworkFailed(causes)) => fail(
                MigrateError::Download(causes),
            ),
            (Migration::Receiving(bytes), MigrateEvent::Chunk(chunk)) => {
                if bytes.len() > MAX_CONTENT_LENGTH || chunk.len() > MAX_CONTENT_LENGTH
                    - bytes.len() {
                    fail(MigrateError::TooLarge)
                } else {
                    let mut bytes = bytes;
                    let mut chunk = chunk;
                    bytes.append(&mut chunk);
                    (Migration::Receiving(bytes), MigrateAction::ReadChunk)
                }
            },
            (Migration::Receiving(bytes), MigrateEvent::BodyEnd) => Migration::plan(
                parse_maunium(bytes.as_slice()),
            ),
            (Migration::Receiving(_), MigrateEvent::NetworkFailed(causes)) => fail(
                MigrateError::Download(causes),
            ),
            (Migration::Checking(id, pack), MigrateEvent::PackState(present)) => {
                if present {
                    (Migration::Finished, MigrateAction::Finish(MigrateResult::Skipped))
                } else {
                    let text = pack.print();
                    (Migration::Writing, MigrateAction::WritePack(id, text))
                }
            },
            (Migration::Checking(_, _), MigrateEvent::StateFailed(causes)) => fail(
                MigrateError::StateRead(causes),
            ),
            (Migration::Writing, MigrateEvent::PackWritten) => (
                Migration::Finished,
                MigrateAction::Finish(MigrateResult::Migrated),
            ),
            (Migration::Writing, MigrateEvent::StateFailed(causes)) => fail(
                MigrateError::StateWrite(causes),
            ),
            (state, _) => (state, MigrateAction::Nothing),
        }
    }
}

/// The actions that a migration asks for, one per event, when it is driven
/// from `state` by `events`.
pub open spec fn actions_spec(state: MigrationView, events: Seq<MigrateEventView>) -> Seq<
    MigrateActionView,
>
    decreases events.len(),
{
    if events.len() == 0 {
        Seq::empty()
    } else {
        let (next, action) = step_spec(state, events[0]);
        seq![action] + actions_spec(next, events.skip(1))
    }
}

/// The number of bytes of all of `chunks`.
pub open spec fn total_len(chunks: Seq<Seq<u8>>) -> nat
    decreases chunks.len(),
{
    if chunks.len() == 0 {
        0
    } else {
        chunks[0].len() + total_len(chunks.skip(1))
    }
}

/// The events in which `chunks` arrive one after the other.
pub open spec fn arrivals(chunks: Seq<Seq<u8>>) -> Seq<MigrateEventView> {
    chunks.map_values(|chunk: Seq<u8>| MigrateEventView::Chunk(chunk))
}

/// A migration that has ended asks for nothing more, whatever happens.
pub proof fn lemma_finished_is_final(events: Seq<MigrateEventView>)
    ensures
        actions_spec(MigrationView::Finished, events).len() == events.len(),
        forall|i: int|
            0 <= i < events.len() ==> actions_spec(MigrationView::Finished, events)[i]
                == MigrateActionView::Nothing,
    decreases events.len(),
{
    if events.len() > 0 {
        lemma_finished_is_final(events.skip(1));
    }
}

/// Size cap enforcement: where the parts of a document add up to more than
/// [`MAX_CONTENT_LENGTH`] bytes, the migration fails for the size as soon
/// as the cap is passed, and neither before nor afterwards, whatever else
/// happens, does it ask for anything to be written.
pub proof fn lemma_size_cap(
    bytes: Seq<u8>,
    chunks: Seq<Seq<u8>>,
    rest: Seq<MigrateEventView>,
)
    requires
        bytes.len() <= MAX_CONTENT_LENGTH,
        bytes.len() + total_len(chunks) > MAX_CONTENT_LENGTH,
    ensures
        ({
            let actions = actions_spec(MigrationView::Receiving(bytes), arrivals(chunks) + rest);
            &&& actions.len() == chunks.len() + rest.len()
            &&& forall|i: int| 0 <= i < actions.len() ==> !(actions[i] is WritePack)
            &&& exists|i: int|
                0 <= i < chunks.len() && actions[i] == MigrateActionView::Finish(
                    MigrateResultView::Failed(MigrateErrorView::TooLarge),
                )
        }),
    decreases chunks.len(),
{
    let events = arrivals(chunks) + rest;
    let actions = actions_spec(MigrationView::Receiving(bytes), events);
    assert(chunks.len() > 0);
    let later = arrivals(chunks.skip(1)) + rest;
    assert(events[0] == MigrateEventView::Chunk(chunks[0]));
    assert(events.skip(1) == later);
    let (next, action) = step_spec(MigrationView::Receiving(bytes), events[0]);
    assert(actions == seq![action] + actions_spec(next, later));
    if bytes.len() + chunks[0].len() > MAX_CONTENT_LENGTH {
        lemma_finished_is_final(later);
        assert(actions[0] == MigrateActionView::Finish(
            MigrateResultView::Failed(MigrateErrorView::TooLarge),
        ));
        assert forall|i: int| 0 <= i < actions.len() implies !(actions[i] is WritePack) by {
            if i > 0 {
                assert(actions[i] == actions_spec(next, later)[i - 1]);
            }
        }
    } else {
        lemma_size_cap(bytes + chunks[0], chunks.skip(1), rest);
        let tail = actions_spec(next, later);
        let k = choose|k: int|
            0 <= k < chunks.skip(1).len() && tail[k] == MigrateActionView::Finish(
                MigrateResultView::Failed(MigrateErrorView::TooLarge),
            );
        assert(actions[k + 1] == tail[k]);
        assert forall|i: int| 0 <= i < actions.len() implies !(actions[i] is WritePack) by {
            if i > 0 {
                assert(actions[i] == tail[i - 1]);
            }
        }
    }
}

/// A response that declares more than [`MAX_CONTENT_LENGTH`] bytes ends
/// the migration before any part of the document is read.
pub proof fn lemma_declared_size_cap(length: u64)
    requires
        length > MAX_CONTENT_LENGTH,
    ensures
        step_spec(MigrationView::Requesting, MigrateEventView::Response(Some(length))) == fails(
            MigrateErrorView::TooLarge,
        ),
{
}

/// Idempotent migration: a pack is written only where the room has none
/// under its identifier. Once it has been written the room has one, and a
/// further migration of the same pack ends in success without a write.
/// Here `pack` is what was read from the fetched document and `room` the
/// identifiers under which the room keeps a pack.
pub proof fn lemma_idempotent_migrate(pack: MauniumPackView, room: Set<Seq<char>>)
    ensures
        ({
            let id = pack_id_spec(pack.id);
            let (checking, lookup) = plan_spec(Ok(pack));
            let (first, written) = step_spec(
                checking,
                MigrateEventView::PackState(room.contains(id)),
            );
            let (second, skipped) = step_spec(
                checking,
                MigrateEventView::PackState(room.insert(id).contains(id)),
            );
            &&& lookup == MigrateActionView::ReadPack(id)
            &&& room.contains(id) ==> written == MigrateActionView::Finish(
                MigrateResultView::Skipped,
            )
            &&& !room.contains(id) ==> written is WritePack && written->WritePack_0 == id
            &&& second == MigrationView::Finished
            &&& skipped == MigrateActionView::Finish(MigrateResultView::Skipped)
            &&& outcome_spec(MigrateResultView::Skipped) == OutcomeView::Succeeded
        }),
{
}

} // verus!
