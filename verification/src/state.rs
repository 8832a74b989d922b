//! The jobs, the queue that holds them, and the form in which the queue is
//! kept in the account-data store.

use crate::json::{doc_of, docs, lookup, parsed, printed, Json, JsonDoc};
use crate::text::same_text;
use std::collections::VecDeque;
use vstd::prelude::*;
use vstd::string::StringExecFns;

verus! {

/// A unit of deferred work, made from one chat command.
#[derive(Clone, Debug, PartialEq, Eq)]
pub enum Job {
    /// Import the Telegram sticker pack with this source identifier.
    Import(String),
    /// Migrate the sticker pack document found at this URL.
    Migrate(String),
}

/// The mathematical value of a [`Job`].
pub enum JobView {
    Import(Seq<char>),
    Migrate(Seq<char>),
}

impl View for Job {
    type V = JobView;

    open spec fn view(&self) -> JobView {
        match self {
            Job::Import(pack) => JobView::Import(pack@),
            Job::Migrate(pack) => JobView::Migrate(pack@),
        }
    }
}

impl Job {
    /// A copy of the job.
    pub fn duplicate(&self) -> (copy: Job)
        ensures
            copy@ == self@,
    {
        match self {
            Job::Import(pack) => Job::Import(pack.clone()),
            Job::Migrate(pack) => Job::Migrate(pack.clone()),
        }
    }
}

/// The chat message that a job originates from, kept in full so that the
/// outcome can be reported to exactly that message.
#[derive(Clone, Debug, PartialEq, Eq)]
pub struct MessageEvent {
    /// The content of the message, as the protocol carries it.
    pub content: Json,
    pub event_id: String,
    pub sender: String,
    /// Milliseconds since the Unix epoch.
    pub origin_server_ts: u64,
    pub room_id: String,
}

/// The mathematical value of a [`MessageEvent`].
pub struct MessageEventView {
    pub content: JsonDoc,
    pub event_id: Seq<char>,
    pub sender: Seq<char>,
    pub origin_server_ts: u64,
    pub room_id: Seq<char>,
}

impl View for MessageEvent {
    type V = MessageEventView;

    open spec fn view(&self) -> MessageEventView {
        MessageEventView {
            content: self.content@,
            event_id: self.event_id@,
            sender: self.sender@,
            origin_server_ts: self.origin_server_ts,
            room_id: self.room_id@,
        }
    }
}

impl MessageEvent {
    /// A copy of the event.
    pub fn duplicate(&self) -> (copy: MessageEvent)
        ensures
            copy@ == self@,
    {
        MessageEvent {
            content: self.content.duplicate(),
            event_id: self.event_id.clone(),
            sender: self.sender.clone(),
            origin_server_ts: self.origin_server_ts,
            room_id: self.room_id.clone(),
        }
    }
}

/// A job together with the message that asked for it.
#[derive(Clone, Debug, PartialEq, Eq)]
pub struct QueuedJob {
    pub ev: MessageEvent,
    pub job: Job,
}

/// The mathematical value of a [`QueuedJob`].
pub struct QueuedJobView {
    pub ev: MessageEventView,
    pub job: JobView,
}

impl View for QueuedJob {
    type V = QueuedJobView;

    open spec fn view(&self) -> QueuedJobView {
        QueuedJobView { ev: self.ev@, job: self.job@ }
    }
}

impl QueuedJob {
    /// A copy of the queued job.
    pub fn duplicate(&self) -> (copy: QueuedJob)
        ensures
            copy@ == self@,
    {
        QueuedJob { ev: self.ev.duplicate(), job: self.job.duplicate() }
    }
}

/// The pending jobs, oldest first. The same job may occur more than once.
#[derive(Clone, Debug, PartialEq, Eq)]
pub struct Queue {
    pub q: VecDeque<QueuedJob>,
}

impl View for Queue {
    type V = Seq<QueuedJobView>;

    open spec fn view(&self) -> Seq<QueuedJobView> {
        self.q@.map_values(|job: QueuedJob| job@)
    }
}

impl Default for Queue {
    fn default() -> (queue: Queue)
        ensures
            queue@ == Seq::<QueuedJobView>::empty(),
    {
        Queue { q: VecDeque::new() }
    }
}

impl Queue {
    /// The queue without jobs.
    pub fn new() -> (queue: Queue)
        ensures
            queue@ == Seq::<QueuedJobView>::empty(),
    {
        Queue { q: VecDeque::new() }
    }

    /// The number of pending jobs.
    pub fn len(&self) -> (n: usize)
        ensures
            n == self@.len(),
    {
        self.q.len()
    }

    /// Whether no job is pending.
    pub fn is_empty(&self) -> (empty: bool)
        ensures
            empty == (self@.len() == 0),
    {
        self.q.len() == 0
    }

    /// Appends `job` behind all pending jobs.
    pub fn enqueue(&mut self, job: QueuedJob)
        ensures
            final(self)@ == old(self)@.push(job@),
    {
        self.q.push_back(job);
        assert(self@ == old(self)@.push(job@));
    }

    /// Removes the oldest pending job and hands it out; `None` when the
    /// queue is empty.
    pub fn dequeue(&mut self) -> (job: Option<QueuedJob>)
        ensures
            old(self)@.len() == 0 ==> job is None && final(self)@ == old(self)@,
            old(self)@.len() > 0 ==> job is Some && job->0@ == old(self)@[0] && final(self)@
                == old(self)@.skip(1),
    {
        let job = self.q.pop_front();
        proof {
            if old(self)@.len() > 0 {
                assert(self@ == old(self)@.skip(1));
            }
        }
        job
    }
}

/// The account-data key under which the queue is kept.
pub const QUEUE_KEY: &'static str = "de.msrd0.tg2mx_bot.queue";

/// The account-data key under which the media map is kept.
pub const MEDIA_MAP_KEY: &'static str = "de.msrd0.tg2mx_bot.media_map";

/// The type of the room-state event that holds a sticker pack.
pub const STICKER_PACK_STATE: &'static str = "im.ponies.room_emotes";

/// The event type that a queued message is written with.
pub const MESSAGE_EVENT_TYPE: &'static str = "m.room.message";

/// The state key under which a state event is read and written: the given
/// one, or the empty key.
pub fn state_key<'a>(given: Option<&'a str>) -> (key: &'a str)
    ensures
        key@ == match given {
            Some(given) => given@,
            None => Seq::<char>::empty(),
        },
{
    match given {
        Some(given) => given,
        None => {
            let key = "";
            proof {
                reveal_strlit("");
                assert(key@.len() == 0);
                assert(key@ == Seq::<char>::empty());
            }
            key
        },
    }
}

/// The default of `U`, whatever `_this` is.
pub fn default<T, U: Default>(_this: &T) -> (value: U)
    ensures
        call_ensures(U::default, (), value),
{
    U::default()
}

/// What the bot lacks when it cannot address the account-data store.
#[derive(Clone, Copy, Debug, PartialEq, Eq)]
pub enum StoreError {
    NoUserId,
    NoAccessToken,
}

impl StoreError {
    /// The error as a sentence.
    pub fn message(&self) -> (text: &'static str)
        ensures
            text@ == match self {
                StoreError::NoUserId => "How can we not have a user id?"@,
                StoreError::NoAccessToken => "How can we not have an access token?"@,
            },
    {
        match self {
            StoreError::NoUserId => "How can we not have a user id?",
            StoreError::NoAccessToken => "How can we not have an access token?",
        }
    }
}

/// The address of the account data `key` of `user` on `homeserver`.
pub open spec fn account_data_url_spec(
    homeserver: Seq<char>,
    user: Seq<char>,
    token: Seq<char>,
    key: Seq<char>,
) -> Seq<char> {
    homeserver + "_matrix/client/v3/user/"@ + user + "/account_data/"@ + key
        + "?access_token="@ + token
}

/// The address from which the account data `key` is read. The user
/// identifier is asked for first, then the access token.
pub fn account_data_url(
    homeserver: &str,
    user_id: Option<&str>,
    access_token: Option<&str>,
    key: &str,
) -> (url: Result<String, StoreError>)
    ensures
        match url {
            Ok(text) => user_id is Some && access_token is Some && text@
                == account_data_url_spec(homeserver@, user_id->0@, access_token->0@, key@),
            Err(StoreError::NoUserId) => user_id is None,
            Err(StoreError::NoAccessToken) => user_id is Some && access_token is None,
        },
{
    let user = match user_id {
        Some(user) => user,
        None => {
            return Err(StoreError::NoUserId);
        },
    };
    let token = match access_token {
        Some(token) => token,
        None => {
            return Err(StoreError::NoAccessToken);
        },
    };
    let mut url = homeserver.to_owned();
    url.append("_matrix/client/v3/user/");
    url.append(user);
    url.append("/account_data/");
    url.append(key);
    url.append("?access_token=");
    url.append(token);
    Ok(url)
}

/// The document of a job: its kind under `type`, its argument under `pack`.
pub open spec fn encode_job_spec(job: JobView) -> JsonDoc {
    match job {
        JobView::Import(pack) => JsonDoc::Object(
            seq![("pack"@, JsonDoc::Text(pack)), ("type"@, JsonDoc::Text("Import"@))],
        ),
        JobView::Migrate(pack) => JsonDoc::Object(
            seq![("pack"@, JsonDoc::Text(pack)), ("type"@, JsonDoc::Text("Migrate"@))],
        ),
    }
}

/// The job that a document holds, if it holds one.
pub open spec fn decode_job_spec(doc: JsonDoc) -> Option<JobView> {
    match (doc.get("type"@), doc.get("pack"@)) {
        (Some(JsonDoc::Text(kind)), Some(JsonDoc::Text(pack))) => if kind == "Import"@ {
            Some(JobView::Import(pack))
        } else if kind == "Migrate"@ {
            Some(JobView::Migrate(pack))
        } else {
            None
        },
        _ => None,
    }
}

/// The document of a message, in the shape of the protocol's message
/// events.
pub open spec fn encode_event_spec(ev: MessageEventView) -> JsonDoc {
    JsonDoc::Object(
        seq![
            ("content"@, ev.content),
            ("event_id"@, JsonDoc::Text(ev.event_id)),
            ("origin_server_ts"@, JsonDoc::Unsigned(ev.origin_server_ts)),
            ("room_id"@, JsonDoc::Text(ev.room_id)),
            ("sender"@, JsonDoc::Text(ev.sender)),
            ("type"@, JsonDoc::Text(MESSAGE_EVENT_TYPE@)),
        ],
    )
}

/// The message that a document holds, if it holds one.
pub open spec fn decode_event_spec(doc: JsonDoc) -> Option<MessageEventView> {
    match (
        doc.get("content"@),
        doc.get("event_id"@),
        doc.get("origin_server_ts"@),
        doc.get("room_id"@),
        doc.get("sender"@),
    ) {
        (
            Some(content),
            Some(JsonDoc::Text(event_id)),
            Some(JsonDoc::Unsigned(origin_server_ts)),
            Some(JsonDoc::Text(room_id)),
            Some(JsonDoc::Text(sender)),
        ) => Some(MessageEventView { content, event_id, sender, origin_server_ts, room_id }),
        _ => None,
    }
}

/// The document of a queued job.
pub open spec fn encode_queued_spec(job: QueuedJobView) -> JsonDoc {
    JsonDoc::Object(seq![("ev"@, encode_event_spec(job.ev)), ("job"@, encode_job_spec(job.job))])
}

/// The queued job that a document holds, if it holds one.
pub open spec fn decode_queued_spec(doc: JsonDoc) -> Option<QueuedJobView> {
    match (doc.get("ev"@), doc.get("job"@)) {
        (Some(ev), Some(job)) => match (decode_event_spec(ev), decode_job_spec(job)) {
            (Some(ev), Some(job)) => Some(QueuedJobView { ev, job }),
            _ => None,
        },
        _ => None,
    }
}

/// The document of a queue: its jobs, oldest first, under `q`.
pub open spec fn encode_queue_spec(queue: Seq<QueuedJobView>) -> JsonDoc {
    JsonDoc::Object(
        seq![("q"@, JsonDoc::Array(queue.map_values(|job: QueuedJobView| encode_queued_spec(job))))],
    )
}

/// The queue that a document holds: every item under `q` has to hold a
/// queued job.
pub open spec fn decode_queue_spec(doc: JsonDoc) -> Option<Seq<QueuedJobView>> {
    match doc.get("q"@) {
        Some(JsonDoc::Array(items)) => if forall|i: int|
            0 <= i < items.len() ==> (#[trigger] decode_queued_spec(items[i])) is Some {
            Some(Seq::new(items.len(), |i: int| decode_queued_spec(items[i])->0))
        } else {
            None
        },
        _ => None,
    }
}

/// The queue that the store holds: the one that the stored text describes,
/// and the empty queue where nothing is stored or the text is no queue.
pub open spec fn read_queue_spec(stored: Option<Seq<u8>>) -> Seq<QueuedJobView> {
    match stored {
        Some(bytes) => match parsed(bytes) {
            Some(doc) => match decode_queue_spec(doc) {
                Some(queue) => queue,
                None => Seq::empty(),
            },
            None => Seq::empty(),
        },
        None => Seq::empty(),
    }
}

/// The text that a queue is stored as.
pub open spec fn write_queue_spec(queue: Seq<QueuedJobView>) -> Seq<u8> {
    printed(encode_queue_spec(queue))
}

proof fn lemma_lookup_hit(fields: Seq<(Seq<char>, JsonDoc)>, key: Seq<char>, value: JsonDoc)
    ensures
        lookup(fields.push((key, value)), key) == Some(value),
{
}

proof fn lemma_lookup_miss(
    fields: Seq<(Seq<char>, JsonDoc)>,
    other: Seq<char>,
    value: JsonDoc,
    key: Seq<char>,
)
    requires
        other != key,
    ensures
        lookup(fields.push((other, value)), key) == lookup(fields, key),
{
    assert(fields.push((other, value)).drop_last() == fields);
}

proof fn lemma_job_keys(pack: JsonDoc, kind: JsonDoc)
    ensures
        lookup(seq![("pack"@, pack), ("type"@, kind)], "pack"@) == Some(pack),
        lookup(seq![("pack"@, pack), ("type"@, kind)], "type"@) == Some(kind),
{
    reveal_strlit("pack");
    reveal_strlit("type");
    assert("pack"@[0] != "type"@[0]);
    let none = Seq::<(Seq<char>, JsonDoc)>::empty();
    assert(seq![("pack"@, pack), ("type"@, kind)] == none.push(("pack"@, pack)).push(
        ("type"@, kind),
    ));
    lemma_lookup_hit(none.push(("pack"@, pack)), "type"@, kind);
    lemma_lookup_miss(none.push(("pack"@, pack)), "type"@, kind, "pack"@);
    lemma_lookup_hit(none, "pack"@, pack);
}

proof fn lemma_queued_keys(ev: JsonDoc, job: JsonDoc)
    ensures
        lookup(seq![("ev"@, ev), ("job"@, job)], "ev"@) == Some(ev),
        lookup(seq![("ev"@, ev), ("job"@, job)], "job"@) == Some(job),
{
    reveal_strlit("ev");
    reveal_strlit("job");
    assert("ev"@.len() == 2 && "job"@.len() == 3);
    let none = Seq::<(Seq<char>, JsonDoc)>::empty();
    assert(seq![("ev"@, ev), ("job"@, job)] == none.push(("ev"@, ev)).push(("job"@, job)));
    lemma_lookup_hit(none.push(("ev"@, ev)), "job"@, job);
    lemma_lookup_miss(none.push(("ev"@, ev)), "job"@, job, "ev"@);
    lemma_lookup_hit(none, "ev"@, ev);
}

proof fn lemma_event_keys(
    content: JsonDoc,
    event_id: JsonDoc,
    ts: JsonDoc,
    room_id: JsonDoc,
    sender: JsonDoc,
    kind: JsonDoc,
)
    ensures
        ({
            let fields = seq![
                ("content"@, content),
                ("event_id"@, event_id),
                ("origin_server_ts"@, ts),
                ("room_id"@, room_id),
                ("sender"@, sender),
                ("type"@, kind),
            ];
            &&& lookup(fields, "content"@) == Some(content)
            &&& lookup(fields, "event_id"@) == Some(event_id)
            &&& lookup(fields, "origin_server_ts"@) == Some(ts)
            &&& lookup(fields, "room_id"@) == Some(room_id)
            &&& lookup(fields, "sender"@) == Some(sender)
        }),
{
    reveal_strlit("content");
    reveal_strlit("event_id");
    reveal_strlit("origin_server_ts");
    reveal_strlit("room_id");
    reveal_strlit("sender");
    reveal_strlit("type");
    assert("content"@[0] != "room_id"@[0]);
    assert("content"@.len() == 7 && "event_id"@.len() == 8 && "origin_server_ts"@.len() == 16);
    assert("room_id"@.len() == 7 && "sender"@.len() == 6 && "type"@.len() == 4);
    let f0 = Seq::<(Seq<char>, JsonDoc)>::empty();
    let f1 = f0.push(("content"@, content));
    let f2 = f1.push(("event_id"@, event_id));
    let f3 = f2.push(("origin_server_ts"@, ts));
    let f4 = f3.push(("room_id"@, room_id));
    let f5 = f4.push(("sender"@, sender));
    assert(seq![
        ("content"@, content),
        ("event_id"@, event_id),
        ("origin_server_ts"@, ts),
        ("room_id"@, room_id),
        ("sender"@, sender),
        ("type"@, kind),
    ] == f5.push(("type"@, kind)));
    lemma_lookup_hit(f0, "content"@, content);
    lemma_lookup_miss(f1, "event_id"@, event_id, "content"@);
    lemma_lookup_miss(f2, "origin_server_ts"@, ts, "content"@);
    lemma_lookup_miss(f3, "room_id"@, room_id, "content"@);
    lemma_lookup_miss(f4, "sender"@, sender, "content"@);
    lemma_lookup_miss(f5, "type"@, kind, "content"@);
    lemma_lookup_hit(f1, "event_id"@, event_id);
    lemma_lookup_miss(f2, "origin_server_ts"@, ts, "event_id"@);
    lemma_lookup_miss(f3, "room_id"@, room_id, "event_id"@);
    lemma_lookup_miss(f4, "sender"@, sender, "event_id"@);
    lemma_lookup_miss(f5, "type"@, kind, "event_id"@);
    lemma_lookup_hit(f2, "origin_server_ts"@, ts);
    lemma_lookup_miss(f3, "room_id"@, room_id, "origin_server_ts"@);
    lemma_lookup_miss(f4, "sender"@, sender, "origin_server_ts"@);
    lemma_lookup_miss(f5, "type"@, kind, "origin_server_ts"@);
    lemma_lookup_hit(f3, "room_id"@, room_id);
    lemma_lookup_miss(f4, "sender"@, sender, "room_id"@);
    lemma_lookup_miss(f5, "type"@, kind, "room_id"@);
    lemma_lookup_hit(f4, "sender"@, sender);
    lemma_lookup_miss(f5, "type"@, kind, "sender"@);
}

/// A job is read back from its document.
pub proof fn lemma_job_round_trip(job: JobView)
    ensures
        decode_job_spec(encode_job_spec(job)) == Some(job),
{
    reveal_strlit("Import");
    reveal_strlit("Migrate");
    assert("Import"@[0] != "Migrate"@[0]);
    match job {
        JobView::Import(pack) => lemma_job_keys(JsonDoc::Text(pack), JsonDoc::Text("Import"@)),
        JobView::Migrate(pack) => lemma_job_keys(JsonDoc::Text(pack), JsonDoc::Text("Migrate"@)),
    }
}

/// A message is read back from its document.
pub proof fn lemma_event_round_trip(ev: MessageEventView)
    ensures
        decode_event_spec(encode_event_spec(ev)) == Some(ev),
{
    lemma_event_keys(
        ev.content,
        JsonDoc::Text(ev.event_id),
        JsonDoc::Unsigned(ev.origin_server_ts),
        JsonDoc::Text(ev.room_id),
        JsonDoc::Text(ev.sender),
        JsonDoc::Text(MESSAGE_EVENT_TYPE@),
    );
}

/// A queued job is read back from its document.
pub proof fn lemma_queued_round_trip(job: QueuedJobView)
    ensures
        decode_queued_spec(encode_queued_spec(job)) == Some(job),
{
    lemma_queued_keys(encode_event_spec(job.ev), encode_job_spec(job.job));
    lemma_event_round_trip(job.ev);
    lemma_job_round_trip(job.job);
}

/// Round trip of the document: the queue that is read from the document
/// of a queue is that queue, with the same jobs in the same order.
pub proof fn lemma_queue_round_trip(queue: Seq<QueuedJobView>)
    ensures
        decode_queue_spec(encode_queue_spec(queue)) == Some(queue),
{
    let items = queue.map_values(|job: QueuedJobView| encode_queued_spec(job));
    let none = Seq::<(Seq<char>, JsonDoc)>::empty();
    lemma_lookup_hit(none, "q"@, JsonDoc::Array(items));
    assert forall|i: int| 0 <= i < items.len() implies (#[trigger] decode_queued_spec(
        items[i],
    )) == Some(queue[i]) by {
        lemma_queued_round_trip(queue[i]);
    }
    assert(Seq::new(items.len(), |i: int| decode_queued_spec(items[i])->0) == queue);
}

/// Round trip through the store: where the text of the queue's document
/// is read back as that document, writing a queue and reading what was
/// written gives the queue.
pub proof fn lemma_store_round_trip(queue: Seq<QueuedJobView>)
    ensures
        parsed(printed(encode_queue_spec(queue))) == Some(encode_queue_spec(queue))
            ==> read_queue_spec(Some(write_queue_spec(queue))) == queue,
{
    lemma_queue_round_trip(queue);
}

/// The document of `job`.
pub fn encode_job(job: &Job) -> (doc: Json)
    ensures
        doc@ == encode_job_spec(job@),
{
    let mut fields: Vec<(String, Json)> = Vec::new();
    match job {
        Job::Import(pack) => {
            fields.push(("pack".to_owned(), Json::Text(pack.clone())));
            fields.push(("type".to_owned(), Json::Text("Import".to_owned())));
        },
        Job::Migrate(pack) => {
            fields.push(("pack".to_owned(), Json::Text(pack.clone())));
            fields.push(("type".to_owned(), Json::Text("Migrate".to_owned())));
        },
    }
    let doc = Json::Object(fields);
    proof {
        reveal_with_fuel(doc_of, 2);
    }
    assert(doc@->Object_0 == encode_job_spec(job@)->Object_0);
    doc
}

/// The job that `doc` holds; `None` where it holds none.
pub fn decode_job(doc: &Json) -> (job: Option<Job>)
    ensures
        match job {
            Some(found) => decode_job_spec(doc@) == Some(found@),
            None => decode_job_spec(doc@) is None,
        },
{
    let kind = match doc.get("type") {
        Some(value) => match value.as_text() {
            Some(text) => text,
            None => {
                return None;
            },
        },
        None => {
            return None;
        },
    };
    let pack = match doc.get("pack") {
        Some(value) => match value.as_text() {
            Some(text) => text,
            None => {
                return None;
            },
        },
        None => {
            return None;
        },
    };
    if same_text(kind.as_str(), "Import") {
        Some(Job::Import(pack.clone()))
    } else if same_text(kind.as_str(), "Migrate") {
        Some(Job::Migrate(pack.clone()))
    } else {
        None
    }
}

/// The document of `ev`.
pub fn encode_event(ev: &MessageEvent) -> (doc: Json)
    ensures
        doc@ == encode_event_spec(ev@),
{
    let mut fields: Vec<(String, Json)> = Vec::new();
    fields.push(("content".to_owned(), ev.content.duplicate()));
    fields.push(("event_id".to_owned(), Json::Text(ev.event_id.clone())));
    fields.push(("origin_server_ts".to_owned(), Json::Unsigned(ev.origin_server_ts)));
    fields.push(("room_id".to_owned(), Json::Text(ev.room_id.clone())));
    fields.push(("sender".to_owned(), Json::Text(ev.sender.clone())));
    fields.push(("type".to_owned(), Json::Text(MESSAGE_EVENT_TYPE.to_owned())));
    let doc = Json::Object(fields);
    proof {
        reveal_with_fuel(doc_of, 2);
    }
    assert(doc@->Object_0 == encode_event_spec(ev@)->Object_0);
    doc
}

/// The message that `doc` holds; `None` where it holds none.
pub fn decode_event(doc: &Json) -> (ev: Option<MessageEvent>)
    ensures
        match ev {
            Some(found) => decode_event_spec(doc@) == Some(found@),
            None => decode_event_spec(doc@) is None,
        },
{
    let content = match doc.get("content") {
        Some(value) => value,
        None => {
            return None;
        },
    };
    let event_id = match doc.get("event_id") {
        Some(value) => match value.as_text() {
            Some(text) => text,
            None => {
                return None;
            },
        },
        None => {
            return None;
        },
    };
    let origin_server_ts = match doc.get("origin_server_ts") {
        Some(value) => match value.as_unsigned() {
            Some(number) => number,
            None => {
                return None;
            },
        },
        None => {
            return None;
        },
    };
    let room_id = match doc.get("room_id") {
        Some(value) => match value.as_text() {
            Some(text) => text,
            None => {
                return None;
            },
        },
        None => {
            return None;
        },
    };
    let sender = match doc.get("sender") {
        Some(value) => match value.as_text() {
            Some(text) => text,
            None => {
                return None;
            },
        },
        None => {
            return None;
        },
    };
    Some(
        MessageEvent {
            content: content.duplicate(),
            event_id: event_id.clone(),
            sender: sender.clone(),
            origin_server_ts,
            room_id: room_id.clone(),
        },
    )
}

/// The document of `job`.
pub fn encode_queued(job: &QueuedJob) -> (doc: Json)
    ensures
        doc@ == encode_queued_spec(job@),
{
    let mut fields: Vec<(String, Json)> = Vec::new();
    fields.push(("ev".to_owned(), encode_event(&job.ev)));
    fields.push(("job".to_owned(), encode_job(&job.job)));
    let doc = Json::Object(fields);
    assert(doc@->Object_0 == encode_queued_spec(job@)->Object_0);
    doc
}

/// The queued job that `doc` holds; `None` where it holds none.
pub fn decode_queued(doc: &Json) -> (job: Option<QueuedJob>)
    ensures
        match job {
            Some(found) => decode_queued_spec(doc@) == Some(found@),
            None => decode_queued_spec(doc@) is None,
        },
{
    let ev = match doc.get("ev") {
        Some(value) => value,
        None => {
            return None;
        },
    };
    let job = match doc.get("job") {
        Some(value) => value,
        None => {
            return None;
        },
    };
    let ev = match decode_event(ev) {
        Some(ev) => ev,
        None => {
            return None;
        },
    };
    let job = match decode_job(job) {
        Some(job) => job,
        None => {
            return None;
        },
    };
    Some(QueuedJob { ev, job })
}

/// The document of `queue`.
pub fn encode_queue(queue: &Queue) -> (doc: Json)
    ensures
        doc@ == encode_queue_spec(queue@),
{
    let mut items: Vec<Json> = Vec::new();
    let mut i: usize = 0;
    while i < queue.q.len()
        invariant
            i <= queue.q.len(),
            items.len() == i,
            forall|k: int| 0 <= k < i ==> items@[k]@ == encode_queued_spec(queue.q@[k]@),
        decreases queue.q.len() - i,
    {
        items.push(encode_queued(&queue.q[i]));
        i += 1;
    }
    let list = Json::Array(items);
    assert(list@->Array_0 == queue@.map_values(|job: QueuedJobView| encode_queued_spec(job)));
    let mut fields: Vec<(String, Json)> = Vec::new();
    fields.push(("q".to_owned(), list));
    let doc = Json::Object(fields);
    assert(doc@->Object_0 == encode_queue_spec(queue@)->Object_0);
    doc
}

/// The queue that `doc` holds; `None` where it holds none.
pub fn decode_queue(doc: &Json) -> (queue: Option<Queue>)
    ensures
        match queue {
            Some(found) => decode_queue_spec(doc@) == Some(found@),
            None => decode_queue_spec(doc@) is None,
        },
{
    let items = match doc.get("q") {
        Some(value) => match value.as_array() {
            Some(items) => items,
            None => {
                return None;
            },
        },
        None => {
            return None;
        },
    };
    let ghost all = docs(items@);
    let mut queue = Queue::new();
    let mut i: usize = 0;
    while i < items.len()
        invariant
            i <= items.len(),
            all == docs(items@),
            doc@.get("q"@) == Some(JsonDoc::Array(all)),
            queue@.len() == i,
            forall|k: int|
                0 <= k < i ==> (#[trigger] decode_queued_spec(all[k])) == Some(queue@[k]),
        decreases items.len() - i,
    {
        match decode_queued(&items[i]) {
            Some(job) => {
                queue.enqueue(job);
            },
            None => {
                assert(decode_queued_spec(all[i as int]) is None);
                return None;
            },
        }
        i += 1;
    }
    assert(queue@ == Seq::new(all.len(), |k: int| decode_queued_spec(all[k])->0));
    Some(queue)
}

/// The queue that the text `bytes` describes; `None` where the text is no
/// document or the document no queue.
pub fn parse_queue(bytes: &[u8]) -> (queue: Option<Queue>)
    ensures
        match queue {
            Some(found) => parsed(bytes@) is Some && decode_queue_spec(parsed(bytes@)->0)
                == Some(found@),
            None => parsed(bytes@) is None || decode_queue_spec(parsed(bytes@)->0) is None,
        },
{
    match Json::parse(bytes) {
        Some(doc) => decode_queue(&doc),
        None => None,
    }
}

/// The queue that the store holds, where `stored` is what the store gave
/// for [`QUEUE_KEY`], if it gave anything. A missing or unreadable value
/// counts as the empty queue.
pub fn read_queue(stored: Option<&[u8]>) -> (queue: Queue)
    ensures
        queue@ == read_queue_spec(
            match stored {
                Some(bytes) => Some(bytes@),
                None => None,
            },
        ),
{
    let found = match stored {
        Some(bytes) => parse_queue(bytes),
        None => None,
    };
    match found {
        Some(queue) => queue,
        None => default(&stored),
    }
}

/// The text that is to be stored under [`QUEUE_KEY`] for `queue`; it
/// replaces whatever is stored there.
pub fn write_queue(queue: &Queue) -> (bytes: Vec<u8>)
    ensures
        bytes@ == write_queue_spec(queue@),
{
    encode_queue(queue).print()
}

/// The text to be stored after `job`, asked for by the message `ev`, has
/// been put behind the jobs of the stored queue.
pub fn enqueue_impl(stored: Option<&[u8]>, ev: MessageEvent, job: Job) -> (bytes: Vec<u8>)
    ensures
        bytes@ == write_queue_spec(
            read_queue_spec(
                match stored {
                    Some(bytes) => Some(bytes@),
                    None => None,
                },
            ).push(QueuedJobView { ev: ev@, job: job@ }),
        ),
{
    let mut queue = read_queue(stored);
    queue.enqueue(QueuedJob { ev, job });
    write_queue(&queue)
}

} // verus!
