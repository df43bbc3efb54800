//! Which message asks for a notification, and with what text.

use vstd::prelude::*;
use crate::formatting::is_plain;
use crate::formatting::lemma_stripped_is_plain;
use crate::formatting::strip_control_sequences;
use crate::formatting::stripped;
use crate::policy::Notifier;
use crate::policy::Policy;
use crate::text::same_text;

verus! {

/// The mathematical value of a [`MsgTarget`].
pub enum Target {
    /// A channel, with its name.
    Chan { chan: Seq<char> },
    /// A private conversation with one peer.
    User { nick: Seq<char> },
    /// Anything else.
    Other,
}

/// Where a message was sent to.
#[derive(Debug, PartialEq, Eq, Clone, Copy)]
pub enum MsgTarget<'a> {
    /// A channel, with its name.
    Chan { chan: &'a str },
    /// A private conversation with one peer.
    User { nick: &'a str },
    /// Anything else. No such message is notified.
    Other,
}

impl<'a> View for MsgTarget<'a> {
    type V = Target;

    open spec fn view(&self) -> Target {
        match self {
            MsgTarget::Chan { chan } => Target::Chan { chan: chan@ },
            MsgTarget::User { nick } => Target::User { nick: nick@ },
            MsgTarget::Other => Target::Other,
        }
    }
}

/// The mathematical value of a [`Notification`].
pub struct Notice {
    /// The title line.
    pub summary: Seq<char>,
    /// The text below it.
    pub body: Seq<char>,
}

/// A request to show a desktop notification.
#[derive(Debug, PartialEq, Eq, Clone)]
pub struct Notification {
    /// The title line.
    pub summary: String,
    /// The text below it.
    pub body: String,
}

impl View for Notification {
    type V = Notice;

    open spec fn view(&self) -> Notice {
        Notice { summary: self.summary@, body: self.body@ }
    }
}

/// The title of a notification for a channel message.
pub open spec fn channel_title(sender: Seq<char>, chan: Seq<char>) -> Seq<char> {
    sender + " in "@ + chan
}

/// The title of a notification for a private message.
pub open spec fn private_title(sender: Seq<char>) -> Seq<char> {
    sender + " sent a private message"@
}

/// The notification that a message asks for under `policy`, if any.
///
/// One's own messages ask for none. A channel message asks for one under
/// `Messages`, under `Mentions` if it mentions the user, and under `Channel`
/// whatever channel it came from: the title then names the channel of the
/// policy, not that of the message. A private message asks for one unless the
/// policy is `Off`. The body is the text of the message.
pub open spec fn decision(
    policy: Policy,
    sender: Seq<char>,
    msg: Seq<char>,
    target: Target,
    our_nick: Seq<char>,
    mention: bool,
) -> Option<Notice> {
    if sender == our_nick {
        None
    } else {
        match target {
            Target::Chan { chan } => match policy {
                Policy::Channel(name) => Some(
                    Notice { summary: channel_title(sender, name), body: stripped(msg) },
                ),
                Policy::Messages => Some(
                    Notice { summary: channel_title(sender, chan), body: stripped(msg) },
                ),
                Policy::Mentions if mention => Some(
                    Notice { summary: channel_title(sender, chan), body: stripped(msg) },
                ),
                _ => None,
            },
            Target::User { .. } => match policy {
                Policy::Off => None,
                _ => Some(Notice { summary: private_title(sender), body: stripped(msg) }),
            },
            Target::Other => None,
        }
    }
}

/// The request to show `summary` above `body`.
pub fn notify(summary: &str, body: &str) -> (request: Notification)
    ensures
        request@ == (Notice { summary: summary@, body: body@ }),
{
    Notification { summary: summary.to_owned(), body: body.to_owned() }
}

fn format_channel_title(sender: &str, chan: &str) -> (title: String)
    ensures
        title@ == channel_title(sender@, chan@),
{
    let mut title = sender.to_owned();
    title.append(" in ");
    title.append(chan);
    title
}

fn format_private_title(sender: &str) -> (title: String)
    ensures
        title@ == private_title(sender@),
{
    let mut title = sender.to_owned();
    title.append(" sent a private message");
    title
}

impl Notifier {
    /// Decides whether a message is notified, and returns the notification to
    /// show. The policy is read, never changed.
    pub fn notify_privmsg(
        &self,
        sender: &str,
        msg: &str,
        target: &MsgTarget,
        our_nick: &str,
        mention: bool,
    ) -> (request: Option<Notification>)
        ensures
            match request {
                Some(n) => decision(self@, sender@, msg@, target@, our_nick@, mention) == Some(n@),
                None => decision(self@, sender@, msg@, target@, our_nick@, mention) is None,
            },
    {
        if same_text(our_nick, sender) {
            return None;
        }
        let msg = strip_control_sequences(msg);

        match target {
            MsgTarget::Chan { chan } => match self {
                Notifier::Channel(name) => Some(
                    notify(format_channel_title(sender, name.as_str()).as_str(), msg.as_str()),
                ),
                Notifier::Messages => Some(
                    notify(format_channel_title(sender, chan).as_str(), msg.as_str()),
                ),
                Notifier::Mentions => {
                    if mention {
                        Some(notify(format_channel_title(sender, chan).as_str(), msg.as_str()))
                    } else {
                        None
                    }
                },
                Notifier::Off => None,
            },
            MsgTarget::User { .. } => match self {
                Notifier::Off => None,
                _ => Some(notify(format_private_title(sender).as_str(), msg.as_str())),
            },
            MsgTarget::Other => None,
        }
    }
}

/// One's own message is never notified, whatever the policy and the target.
pub proof fn lemma_own_message_is_silent(
    policy: Policy,
    sender: Seq<char>,
    msg: Seq<char>,
    target: Target,
    mention: bool,
)
    ensures
        decision(policy, sender, msg, target, sender, mention) is None,
{
}

/// Under `Off` no message is notified.
pub proof fn lemma_off_is_silent(
    sender: Seq<char>,
    msg: Seq<char>,
    target: Target,
    our_nick: Seq<char>,
    mention: bool,
)
    ensures
        decision(Policy::Off, sender, msg, target, our_nick, mention) is None,
{
}

/// Under `Messages` every message of someone else is notified, mention or
/// not, be it sent to a channel or to the user alone.
pub proof fn lemma_messages_notifies_all(
    sender: Seq<char>,
    msg: Seq<char>,
    target: Target,
    our_nick: Seq<char>,
    mention: bool,
)
    requires
        sender != our_nick,
    ensures
        target matches Target::Chan { chan } ==> decision(
            Policy::Messages,
            sender,
            msg,
            target,
            our_nick,
            mention,
        ) == Some(Notice { summary: channel_title(sender, chan), body: stripped(msg) }),
        target is User ==> decision(Policy::Messages, sender, msg, target, our_nick, mention)
            == Some(Notice { summary: private_title(sender), body: stripped(msg) }),
{
}

/// Under `Mentions` a channel message of someone else is notified if and only
/// if it mentions the user; a private message always is.
pub proof fn lemma_mentions_notifies_mentions(
    sender: Seq<char>,
    msg: Seq<char>,
    target: Target,
    our_nick: Seq<char>,
    mention: bool,
)
    requires
        sender != our_nick,
    ensures
        target matches Target::Chan { chan } ==> decision(
            Policy::Mentions,
            sender,
            msg,
            target,
            our_nick,
            mention,
        ) == if mention {
            Some(Notice { summary: channel_title(sender, chan), body: stripped(msg) })
        } else {
            None
        },
        target is User ==> decision(Policy::Mentions, sender, msg, target, our_nick, mention)
            == Some(Notice { summary: private_title(sender), body: stripped(msg) }),
{
}

/// Under `Channel(name)` every channel message of someone else is notified,
/// also one sent to another channel than `name`, and the title names `name`
/// all the same.
pub proof fn lemma_channel_policy_names_its_channel(
    name: Seq<char>,
    sender: Seq<char>,
    msg: Seq<char>,
    chan: Seq<char>,
    our_nick: Seq<char>,
    mention: bool,
)
    requires
        sender != our_nick,
    ensures
        decision(
            Policy::Channel(name),
            sender,
            msg,
            Target::Chan { chan },
            our_nick,
            mention,
        ) == Some(Notice { summary: channel_title(sender, name), body: stripped(msg) }),
{
}

/// The body of a notification is the text of the message, and holds no
/// control character.
pub proof fn lemma_body_is_plain(
    policy: Policy,
    sender: Seq<char>,
    msg: Seq<char>,
    target: Target,
    our_nick: Seq<char>,
    mention: bool,
)
    ensures
        decision(policy, sender, msg, target, our_nick, mention) matches Some(n) ==> n.body
            == stripped(msg) && is_plain(n.body),
{
    lemma_stripped_is_plain(msg);
}

} // verus!
