//! What the bot does with an incoming message or invitation.

use crate::auth::{admin_spec, is_admin};
use crate::state::{Job, JobView};
use crate::text::{same_text, strip_prefix, trim_end, trim_end_spec};
use vstd::prelude::*;
use vstd::string::StrSliceExecFns;

verus! {

/// The help message, as plain text.
pub const HELP_PLAIN: &'static str =
    "This is tg2mx_bot, a bot that can import sticker packs from\ntelegram and migrate maunium's sticker packs to MSC2545 room\nsticker packs.\n\nThe following commands are available:\n\n!help  --  Show this help message\n\n!import <pack>  --  Import a telegram sticker pack.\n\n!migrate <pack>  --  Migrate a maunium sticker pack.\n";

/// The help message, as formatted text.
pub const HELP_HTML: &'static str =
    "<p>This is tg2mx_bot, a bot that can import sticker packs from\ntelegram and migrate maunium's sticker packs to MSC2545 room\nsticker packs.</p>\n\n<p>The following commands are available:</p>\n\n<ul>\n  <li><code>!help</code>  --  Show this help message</li>\n  <li><code>!import</code> &lt;pack&gt;  --  Import a telegram\n      sticker pack.</li>\n  <li><code>!migrate</code> &lt;pack&gt;  --  Migrate a maunium\n      sticker pack.</li>\n</ul>\n";

/// The reply to a command that the bot does not know.
pub const UNKNOWN_COMMAND: &'static str =
    "Unknown command. Use !help to see a list of all commands";

/// The reaction that acknowledges a queued job.
pub const REACTION_QUEUED: &'static str = "\u{23f1}\u{fe0f}";

/// The reaction that reports success.
pub const REACTION_SUCCESS: &'static str = "\u{2705}";

/// The reaction that reports failure.
pub const REACTION_FAILURE: &'static str = "\u{1f7e5}";

/// What a message asks of the bot.
#[derive(Clone, Debug, PartialEq, Eq)]
pub enum Dispatch {
    /// Not for the bot: its own message, no text, or no command.
    Ignore,
    /// Reply with the help message.
    Help,
    /// Put this job at the end of the queue and acknowledge it.
    Enqueue(Job),
    /// Replace the persisted queue by an empty one.
    ClearQueue,
    /// A privileged command from someone who is no administrator: log it,
    /// and do not answer.
    Denied,
    /// Reply that the command is unknown.
    Unknown,
}

/// The mathematical value of a [`Dispatch`].
pub enum DispatchView {
    Ignore,
    Help,
    Enqueue(JobView),
    ClearQueue,
    Denied,
    Unknown,
}

impl View for Dispatch {
    type V = DispatchView;

    open spec fn view(&self) -> DispatchView {
        match self {
            Dispatch::Ignore => DispatchView::Ignore,
            Dispatch::Help => DispatchView::Help,
            Dispatch::Enqueue(job) => DispatchView::Enqueue(job@),
            Dispatch::ClearQueue => DispatchView::ClearQueue,
            Dispatch::Denied => DispatchView::Denied,
            Dispatch::Unknown => DispatchView::Unknown,
        }
    }
}

/// The command that `text` is, for a sender who is an administrator or
/// not. Only text that begins with `!` is a command; command words are
/// matched exactly and by case.
pub open spec fn command_spec(text: Seq<char>, admin: bool) -> DispatchView {
    if text.len() == 0 || text[0] != '!' {
        DispatchView::Ignore
    } else if text == "!help"@ {
        DispatchView::Help
    } else if "!import "@.is_prefix_of(text) {
        DispatchView::Enqueue(JobView::Import(text.skip("!import "@.len() as int)))
    } else if "!migrate "@.is_prefix_of(text) {
        DispatchView::Enqueue(JobView::Migrate(text.skip("!migrate "@.len() as int)))
    } else if text == "!clear queue"@ {
        if admin {
            DispatchView::ClearQueue
        } else {
            DispatchView::Denied
        }
    } else {
        DispatchView::Unknown
    }
}

/// What a message asks of the bot: nothing if the bot sent it itself or if
/// it has no text body, else the command that its body is once trailing
/// whitespace is taken off.
pub open spec fn dispatch_spec(own: bool, body: Option<Seq<char>>, admin: bool) -> DispatchView {
    match body {
        Some(text) if !own => command_spec(trim_end_spec(text), admin),
        _ => DispatchView::Ignore,
    }
}

proof fn lemma_whole_prefix(text: Seq<char>, word: Seq<char>)
    ensures
        text == word <==> word.is_prefix_of(text) && text.skip(word.len() as int).len() == 0,
{
    if word.is_prefix_of(text) && text.skip(word.len() as int).len() == 0 {
        assert(text.subrange(0, word.len() as int) == text);
    }
    if text == word {
        assert(text.subrange(0, word.len() as int) == text);
    }
}

/// The command that `text` is, sent by someone who is an administrator
/// (`admin`) or is not.
pub fn classify(text: &str, admin: bool) -> (dispatch: Dispatch)
    ensures
        dispatch@ == command_spec(text@, admin),
{
    if text.is_empty() || text.get_char(0) != '!' {
        return Dispatch::Ignore;
    }
    proof {
        lemma_whole_prefix(text@, "!help"@);
        lemma_whole_prefix(text@, "!clear queue"@);
    }
    if let Some(rest) = strip_prefix(text, "!help") {
        if rest.is_empty() {
            return Dispatch::Help;
        }
    }
    if let Some(pack) = strip_prefix(text, "!import ") {
        return Dispatch::Enqueue(Job::Import(pack.to_owned()));
    }
    if let Some(pack) = strip_prefix(text, "!migrate ") {
        return Dispatch::Enqueue(Job::Migrate(pack.to_owned()));
    }
    if let Some(rest) = strip_prefix(text, "!clear queue") {
        if rest.is_empty() {
            if admin {
                return Dispatch::ClearQueue;
            } else {
                return Dispatch::Denied;
            }
        }
    }
    Dispatch::Unknown
}

/// The command of the message text `body`, whose trailing whitespace does
/// not count, sent by someone who is an administrator (`admin`) or is not.
pub fn parse_command(body: &str, admin: bool) -> (dispatch: Dispatch)
    ensures
        dispatch@ == command_spec(trim_end_spec(body@), admin),
{
    classify(trim_end(body), admin)
}

/// What the message asks of the bot.
///
/// `sender` wrote the message, `own_id` is the bot's own identity, `body`
/// is the text of the message (`None` for any other kind of content) and
/// `admins` the configured allow-list.
pub fn message_handler(
    sender: &str,
    own_id: &str,
    body: Option<&str>,
    admins: Option<&str>,
) -> (dispatch: Dispatch)
    ensures
        dispatch@ == dispatch_spec(
            sender@ == own_id@,
            match body {
                Some(text) => Some(text@),
                None => None,
            },
            admin_spec(
                match admins {
                    Some(list) => Some(list@),
                    None => None,
                },
                sender@,
            ),
        ),
{
    if same_text(sender, own_id) {
        return Dispatch::Ignore;
    }
    match body {
        Some(text) => parse_command(text, is_admin(admins, sender)),
        None => Dispatch::Ignore,
    }
}

/// What the bot does with an invitation.
#[derive(Clone, Copy, Debug, PartialEq, Eq)]
pub enum InviteDecision {
    /// The membership event is about someone else, or is no invitation.
    Ignore,
    /// Decline the invitation; it is not tried again.
    Reject,
    /// Join the room.
    Accept,
}

/// The decision on a membership event, where `for_bot` says whether the
/// event is about the bot itself, `invited` whether the room is one the bot
/// is invited to, and `admin` whether the sender is an administrator.
pub open spec fn invite_spec(for_bot: bool, invited: bool, admin: bool) -> InviteDecision {
    if !for_bot || !invited {
        InviteDecision::Ignore
    } else if admin {
        InviteDecision::Accept
    } else {
        InviteDecision::Reject
    }
}

/// What the bot does with a membership event about `state_key` that
/// `sender` sent, where `own_id` is the bot's own identity, `invited` says
/// whether the room is one the bot is invited to, and `admins` is the
/// configured allow-list.
pub fn autojoin_handler(
    state_key: &str,
    own_id: &str,
    invited: bool,
    sender: &str,
    admins: Option<&str>,
) -> (decision: InviteDecision)
    ensures
        decision == invite_spec(
            state_key@ == own_id@,
            invited,
            admin_spec(
                match admins {
                    Some(list) => Some(list@),
                    None => None,
                },
                sender@,
            ),
        ),
{
    if !same_text(state_key, own_id) {
        return InviteDecision::Ignore;
    }
    if !invited {
        return InviteDecision::Ignore;
    }
    if is_admin(admins, sender) {
        InviteDecision::Accept
    } else {
        InviteDecision::Reject
    }
}

} // verus!
