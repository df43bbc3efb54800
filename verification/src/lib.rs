//! Desktop notification policy for a chat client: which incoming messages
//! ask for a notification, and the text that the notification shows.
//!
//! * [`policy`]: the policy, how it is read from a setting, and its default.
//! * [`decision`]: the decision on one incoming message.
//! * [`formatting`]: message text without its in-band formatting.
//! * [`text`]: comparison of strings, character by character.
//!
//! Nothing here shows a notification: [`Notifier::notify_privmsg`] returns
//! the request, and the caller hands it to the desktop.

pub mod decision;
pub mod formatting;
pub mod policy;
pub mod text;

pub use decision::notify;
pub use decision::MsgTarget;
pub use decision::Notification;
pub use formatting::strip_control_sequences;
pub use policy::Notifier;
pub use policy::ParseError;
