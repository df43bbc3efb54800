//! The notification policy and its default.

use vstd::prelude::*;
use crate::text::ascii_lower;
use crate::text::folded;
use crate::text::same_text_ignoring_case;

verus! {

/// The mathematical value of a [`Notifier`].
pub enum Policy {
    /// Nothing is notified.
    Off,
    /// Private messages, and channel messages that mention the user.
    Mentions,
    /// Every message.
    Messages,
    /// Private messages and every channel message, under this channel's name.
    Channel(Seq<char>),
}

/// Desktop notification policy.
#[derive(Debug, PartialEq, Eq, Clone, PartialOrd, Ord)]
pub enum Notifier {
    /// Notifications are disabled.
    Off,
    /// Generate notifications only for mentions.
    Mentions,
    /// Generate notifications for all messages.
    Messages,
    /// Generate notifications for channel messages, labelled with this channel.
    Channel(String),
}

impl View for Notifier {
    type V = Policy;

    open spec fn view(&self) -> Policy {
        match self {
            Notifier::Off => Policy::Off,
            Notifier::Mentions => Policy::Mentions,
            Notifier::Messages => Policy::Messages,
            Notifier::Channel(name) => Policy::Channel(name@),
        }
    }
}

impl Policy {
    /// A `Channel` policy names a channel: its name begins with `#`.
    pub open spec fn wf(self) -> bool {
        self matches Policy::Channel(name) ==> name.len() > 0 && name[0] == '#'
    }
}

impl Notifier {
    /// Whether the policy is well formed. Reading a setting and taking the
    /// default give such a policy; the decision does not depend on it.
    pub open spec fn wf(&self) -> bool {
        self@.wf()
    }
}

/// The setting that could not be read as a policy.
#[derive(Debug, PartialEq, Eq, Clone)]
pub struct ParseError {
    /// The offending setting, as it was given.
    pub input: String,
}

impl View for ParseError {
    type V = Seq<char>;

    open spec fn view(&self) -> Seq<char> {
        self.input@
    }
}

impl ParseError {
    /// The error in words, with the setting that caused it.
    pub fn message(&self) -> (text: String)
        ensures
            text@ == "unknown notifier variant: "@ + self@,
    {
        let mut text = "unknown notifier variant: ".to_owned();
        text.append(self.input.as_str());
        text
    }
}

/// What a setting means. The three keywords are read without regard to the
/// case of their letters; a channel name is taken as it is written.
pub open spec fn parsed(s: Seq<char>) -> Result<Policy, Seq<char>> {
    if folded(s) == "off"@ {
        Ok(Policy::Off)
    } else if folded(s) == "mentions"@ {
        Ok(Policy::Mentions)
    } else if folded(s) == "messages"@ {
        Ok(Policy::Messages)
    } else if s.len() > 0 && s[0] == '#' {
        Ok(Policy::Channel(s))
    } else {
        Err(s)
    }
}

fn names_channel(s: &str) -> (r: bool)
    ensures
        r == (s@.len() > 0 && s@[0] == '#'),
{
    let mut chars = s.chars();
    match chars.next() {
        Some(c) => c == '#',
        None => false,
    }
}

impl std::str::FromStr for Notifier {
    type Err = ParseError;

    /// Reads a policy from its setting: `off`, `mentions` or `messages` in
    /// any case, or the name of a channel.
    fn from_str(s: &str) -> (r: Result<Notifier, ParseError>)
        ensures
            match r {
                Ok(policy) => parsed(s@) == Ok::<Policy, Seq<char>>(policy@) && policy.wf(),
                Err(e) => parsed(s@) == Err::<Policy, Seq<char>>(e@),
            },
    {
        proof {
            reveal_strlit("off");
            reveal_strlit("mentions");
            reveal_strlit("messages");
            assert(folded("off"@) =~= "off"@);
            assert(folded("mentions"@) =~= "mentions"@);
            assert(folded("messages"@) =~= "messages"@);
        }
        if same_text_ignoring_case(s, "off") {
            Ok(Notifier::Off)
        } else if same_text_ignoring_case(s, "mentions") {
            Ok(Notifier::Mentions)
        } else if same_text_ignoring_case(s, "messages") {
            Ok(Notifier::Messages)
        } else if names_channel(s) {
            Ok(Notifier::Channel(s.to_owned()))
        } else {
            Err(ParseError { input: s.to_owned() })
        }
    }
}

impl Notifier {
    /// The policy that a session starts with: mentions where the host can
    /// show desktop notifications, nothing where it cannot.
    pub fn default_policy(desktop_notifications: bool) -> (policy: Notifier)
        ensures
            policy@ == if desktop_notifications {
                Policy::Mentions
            } else {
                Policy::Off
            },
            policy.wf(),
    {
        if desktop_notifications {
            Notifier::Mentions
        } else {
            Notifier::Off
        }
    }
}

/// A policy that was read from a setting is well formed: where it is a
/// `Channel`, it carries the setting as it was written, which begins with `#`.
pub proof fn lemma_parsed_is_wf(s: Seq<char>)
    ensures
        parsed(s) matches Ok(policy) ==> policy.wf(),
        parsed(s) matches Ok(Policy::Channel(name)) ==> name == s,
{
}

/// A setting that is refused comes back in the error, unchanged.
pub proof fn lemma_refused_setting_is_kept(s: Seq<char>)
    ensures
        parsed(s) matches Err(e) ==> e == s,
{
}

/// Two settings that differ only in the case of their ASCII letters are both
/// accepted or both refused, and where they read a keyword they mean the same.
pub proof fn lemma_parsed_ignores_case(s: Seq<char>, t: Seq<char>)
    requires
        folded(s) == folded(t),
    ensures
        parsed(s) is Ok <==> parsed(t) is Ok,
        parsed(s) matches Ok(policy) && !(policy is Channel) ==> parsed(t) == parsed(s),
{
    assert(s.len() == folded(s).len());
    assert(t.len() == folded(t).len());
    if s.len() > 0 {
        assert(folded(s)[0] == ascii_lower(s[0]));
        assert(folded(t)[0] == ascii_lower(t[0]));
    }
}

} // verus!
