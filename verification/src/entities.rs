//! The entity types: users, rooms, messages, and the message-variant
//! algebra.
//!
//! Entities are immutable value aggregates. They are created through the
//! validation layer, which is the only construction path that establishes
//! their invariants; textual corrections to messages are new `Edit`
//! messages, never mutations.

use crate::credential::{credential_matches, Credential, PasswordError, Salt, MAX_PASSWORD_BYTES};
use crate::ids::OpaqueID;
use crate::time::Timestamp;
use vstd::prelude::*;
use vstd::string::StringSliceAdditionalSpecFns;

verus! {

/// The entity-kind tag for user IDs. Zero-sized; it exists only so that a
/// `UserID` cannot be confused with an ID of another entity kind.
#[derive(Debug, Copy, Clone, PartialEq, Eq, PartialOrd, Ord, Hash, Structural)]
pub struct UserTag;

/// The entity-kind tag for room IDs.
#[derive(Debug, Copy, Clone, PartialEq, Eq, PartialOrd, Ord, Hash, Structural)]
pub struct RoomTag;

/// The entity-kind tag for message IDs.
#[derive(Debug, Copy, Clone, PartialEq, Eq, PartialOrd, Ord, Hash, Structural)]
pub struct MessageTag;

/// A user ID.
pub type UserID = OpaqueID<UserTag>;

/// A room ID.
pub type RoomID = OpaqueID<RoomTag>;

/// A message ID.
pub type MessageID = OpaqueID<MessageTag>;

/// A user. The credential was derived from the user's password and salt
/// under the pinned KDF parameters; the plaintext password is never stored
/// and never recoverable from this value.
#[derive(Debug, Clone, PartialEq, Eq)]
pub struct User {
    /// User ID.
    pub id: UserID,
    /// User email.
    pub email: String,
    /// Password hash.
    pub credential: Credential,
    /// Salt used for this user's password.
    pub salt: Salt,
    /// User name.
    pub name: String,
}

impl User {
    /// Check a password attempt against this user's stored credential and
    /// salt: `Ok` exactly when the credential is the pinned KDF's output
    /// for the attempt, compared in constant time, and otherwise the single
    /// undistinguished `IncorrectPassword`.
    pub fn verify_password(&self, password: &str) -> (r: Result<(), PasswordError>)
        ensures
            r is Ok ==> credential_matches(
                self.credential@,
                self.salt@,
                password.spec_bytes(),
            ),
            credential_matches(self.credential@, self.salt@, password.spec_bytes())
                && password.spec_bytes().len() <= MAX_PASSWORD_BYTES ==> r is Ok,
            r is Err ==> r == Err::<(), PasswordError>(PasswordError::IncorrectPassword),
    {
        crate::credential::verify(&self.credential, &self.salt, password)
    }
}

/// Room visibility. Immutable after creation: changing it means creating a
/// new room.
#[derive(Debug, Copy, Clone, PartialEq, Eq, Structural)]
pub enum RoomVisibility {
    /// Visible to all users; discoverable and joinable without invitation.
    Public,
    /// Not listed to non-members and not joinable without an out-of-band
    /// invitation; the policy enforcing this is an external collaborator.
    Private,
}

/// A room.
#[derive(Debug, Clone, PartialEq, Eq)]
pub struct Room {
    /// Room ID.
    pub id: RoomID,
    /// Room name.
    pub name: String,
    /// Room visibility.
    pub visibility: RoomVisibility,
}

/// A message.
#[derive(Debug, Clone, PartialEq, Eq)]
pub struct Message {
    /// Message ID.
    pub id: MessageID,
    /// Message date.
    pub date: Timestamp,
    /// User ID of the author.
    pub user_id: UserID,
    /// Room the message was sent to.
    pub room_id: RoomID,
    /// Message data.
    pub data: MessageData,
}

/// The message-variant algebra: a tagged sum with exactly these shapes.
/// Consumers match exhaustively; adding a variant is a breaking change.
#[derive(Debug, Clone, PartialEq, Eq)]
pub enum MessageData {
    /// A normal, public message.
    Message {
        /// Message text.
        message: String,
    },
    /// A private message (DM).
    DirectMessage {
        /// Message text.
        message: String,
        /// Recipient of this message.
        recipient: UserID,
    },
    /// An edit of a prior message.
    Edit {
        /// New message text.
        new_message: String,
        /// ID of the message being edited.
        edit_id: MessageID,
    },
    /// User join notification.
    Join,
    /// User leave notification.
    Leave,
}

impl MessageData {
    /// The textual body carried by this variant, if any.
    pub open spec fn spec_body(&self) -> Option<Seq<char>> {
        match *self {
            MessageData::Message { message } => Some(message@),
            MessageData::DirectMessage { message, recipient } => Some(message@),
            MessageData::Edit { new_message, edit_id } => Some(new_message@),
            MessageData::Join => None,
            MessageData::Leave => None,
        }
    }

    /// The recipient this variant addresses, if any.
    pub open spec fn spec_targets(&self) -> Option<UserID> {
        match *self {
            MessageData::DirectMessage { message, recipient } => Some(recipient),
            _ => None,
        }
    }

    /// The prior message this variant references, if any.
    pub open spec fn spec_references(&self) -> Option<MessageID> {
        match *self {
            MessageData::Edit { new_message, edit_id } => Some(edit_id),
            _ => None,
        }
    }

    /// The textual body: the text of a `Message`, `DirectMessage` or
    /// `Edit`; none for `Join` and `Leave`.
    pub fn body(&self) -> (r: Option<String>)
        ensures
            r is Some <==> self.spec_body() is Some,
            r is Some ==> r->0@ == self.spec_body()->0,
    {
        match self {
            MessageData::Message { message } => Some(message.clone()),
            MessageData::DirectMessage { message, recipient } => Some(message.clone()),
            MessageData::Edit { new_message, edit_id } => Some(new_message.clone()),
            MessageData::Join => None,
            MessageData::Leave => None,
        }
    }

    /// The recipient: `Some` for a `DirectMessage`, none otherwise.
    pub fn targets(&self) -> (r: Option<UserID>)
        ensures
            r == self.spec_targets(),
    {
        match self {
            MessageData::DirectMessage { message, recipient } => Some(*recipient),
            _ => None,
        }
    }

    /// The referenced message: `Some` for an `Edit`, none otherwise.
    pub fn references(&self) -> (r: Option<MessageID>)
        ensures
            r == self.spec_references(),
    {
        match self {
            MessageData::Edit { new_message, edit_id } => Some(*edit_id),
            _ => None,
        }
    }
}

} // verus!
