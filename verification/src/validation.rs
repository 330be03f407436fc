//! The validation layer: the only construction path for entities.
//!
//! Every constructor enforces the entity invariants and fails with a typed
//! error otherwise; an entity value that exists was built here and satisfies
//! its well-formedness predicate. Lookup of a referenced message is
//! delegated to the external store: the caller passes the message it found,
//! and the constructor checks that it is the right one.

use crate::credential::{pbkdf2_hmac_sha256, RngError, MAX_PASSWORD_BYTES};
use crate::entities::{
    Message, MessageData, MessageTag, Room, RoomTag, RoomVisibility, User, UserID, UserTag, RoomID,
};
use crate::ids::IdMinter;
use crate::time::Clock;
use vstd::prelude::*;
use vstd::string::StringSliceAdditionalSpecFns;
use vstd::utf8::encode_utf8;

verus! {

/// Rejection of an entity that would break an invariant.
#[derive(Debug, Copy, Clone, PartialEq, Eq, Structural)]
pub enum ValidationError {
    /// A room or user name is empty.
    EmptyName,
    /// A user email is empty.
    EmptyEmail,
    /// A user email is not shaped like an address.
    MalformedEmail,
    /// A `Message` or `DirectMessage` has empty text.
    EmptyMessage,
    /// A `DirectMessage` addressed to its own author.
    SelfDirectMessage,
    /// An `Edit` of a message that is not a `Message` or `DirectMessage`.
    EditOfUneditable,
    /// An `Edit` of a message by another user.
    EditCrossUser,
    /// An `Edit` of a message in another room.
    EditCrossRoom,
    /// An `Edit` whose referenced message was not found.
    EditTargetMissing,
    /// An `Edit` whose target would not precede the edit itself.
    EditNotPrior,
}

/// Why a constructor failed: a broken invariant, or one of the two fatal
/// conditions of the host (identifier space exhausted, CSPRNG refusing).
#[derive(Debug, Copy, Clone, PartialEq, Eq, Structural)]
pub enum CreateError {
    /// The inputs would break an entity invariant.
    Validation(ValidationError),
    /// The 64-bit identifier counter is exhausted; fatal.
    IdentifierExhausted,
    /// The CSPRNG refused to produce bytes; fatal.
    RngFailure,
}

/// Whether the bytes are shaped like an address: exactly one `@`, with at
/// least one byte before it and at least one after it (non-empty local and
/// domain parts). In UTF-8 the byte 0x40 occurs only as the character `@`,
/// so this is the same rule read over characters.
pub open spec fn valid_email_bytes(b: Seq<u8>) -> bool {
    exists|i: int|
        {
            &&& 0 < i < b.len() - 1
            &&& #[trigger] b[i] == 64u8
            &&& forall|j: int| 0 <= j < b.len() && j != i ==> b[j] != 64u8
        }
}

/// The first invariant that user inputs break, if any: the email must be
/// non-empty and shaped like an address, and the name non-empty.
pub open spec fn user_input_error(email: Seq<char>, name: Seq<char>) -> Option<ValidationError> {
    if email.len() == 0 {
        Some(ValidationError::EmptyEmail)
    } else if !valid_email_bytes(encode_utf8(email)) {
        Some(ValidationError::MalformedEmail)
    } else if name.len() == 0 {
        Some(ValidationError::EmptyName)
    } else {
        None
    }
}

/// The invariants of a user value that do not mention the password: a
/// non-empty address-shaped email, a non-empty name, and an ID above the
/// reserved sentinel.
pub open spec fn user_wf(u: User) -> bool {
    &&& u.email@.len() > 0
    &&& valid_email_bytes(encode_utf8(u.email@))
    &&& u.name@.len() > 0
    &&& u.id.value() > 0
}

/// The invariants of a room value: a non-empty name and an ID above the
/// reserved sentinel.
pub open spec fn room_wf(room: Room) -> bool {
    &&& room.name@.len() > 0
    &&& room.id.value() > 0
}

/// Check that a string is shaped like an address. Works over the UTF-8
/// bytes: the byte 0x40 is the character `@` and nothing else.
pub fn email_shape_ok(email: &str) -> (r: bool)
    ensures
        r == valid_email_bytes(email.spec_bytes()),
{
    let b = email.as_bytes();
    let n = b.len();
    let mut i: usize = 0;
    let mut found = false;
    let mut pos: usize = 0;
    let mut dup = false;
    while i < n
        invariant
            n == b@.len(),
            i <= n,
            !found ==> forall|j: int| 0 <= j < i ==> b@[j] != 64u8,
            found ==> pos < i && b@[pos as int] == 64u8,
            found && !dup ==> forall|j: int| 0 <= j < i && j != pos ==> b@[j] != 64u8,
            dup ==> found,
            dup ==> exists|j: int| 0 <= j < i && j != pos && #[trigger] b@[j] == 64u8,
        decreases n - i,
    {
        if b[i] == 64u8 {
            if !found {
                found = true;
                pos = i;
            } else {
                dup = true;
            }
        }
        i = i + 1;
    }
    found && !dup && pos > 0 && pos + 1 < n
}

/// Create a user: validate the email shape and the name, sample a fresh
/// salt, derive the credential under the pinned KDF parameters, mint a
/// `UserID`, and aggregate. The password lives only in the caller's frame;
/// the returned value holds the credential and salt alone.
pub fn create_user(
    email: String,
    name: String,
    password: &str,
    minter: &mut IdMinter<UserTag>,
) -> (r: Result<User, CreateError>)
    requires
        old(minter).wf(),
        password.spec_bytes().len() <= MAX_PASSWORD_BYTES,
    ensures
        final(minter).wf(),
        match user_input_error(email@, name@) {
            Some(e) => {
                &&& r == Err::<User, CreateError>(CreateError::Validation(e))
                &&& final(minter).last_value() == old(minter).last_value()
                &&& final(minter).minted() == old(minter).minted()
            },
            None => {
                &&& (r is Ok || r == Err::<User, CreateError>(CreateError::RngFailure) || r
                    == Err::<User, CreateError>(CreateError::IdentifierExhausted))
                &&& r == Err::<User, CreateError>(CreateError::IdentifierExhausted) ==> old(
                    minter,
                ).last_value() == u64::MAX
                &&& r is Err ==> {
                    &&& final(minter).last_value() == old(minter).last_value()
                    &&& final(minter).minted() == old(minter).minted()
                }
                &&& r is Ok ==> {
                    &&& r->Ok_0.email@ == email@
                    &&& r->Ok_0.name@ == name@
                    &&& r->Ok_0.credential@ == pbkdf2_hmac_sha256(
                        password.spec_bytes(),
                        r->Ok_0.salt@,
                    )
                    &&& r->Ok_0.id.value() == old(minter).last_value() + 1
                    &&& final(minter).last_value() == old(minter).last_value() + 1
                    &&& final(minter).minted() == old(minter).minted().push(r->Ok_0.id.value())
                    &&& user_wf(r->Ok_0)
                }
            },
        },
{
    if email.as_str().is_empty() {
        return Err(CreateError::Validation(ValidationError::EmptyEmail));
    }
    if !email_shape_ok(email.as_str()) {
        return Err(CreateError::Validation(ValidationError::MalformedEmail));
    }
    if name.as_str().is_empty() {
        return Err(CreateError::Validation(ValidationError::EmptyName));
    }
    let salt = match crate::credential::fresh_salt() {
        Ok(salt) => salt,
        Err(RngError::RngFailure) => {
            return Err(CreateError::RngFailure);
        },
    };
    let credential = crate::credential::derive(password, &salt);
    let id = match minter.next() {
        Ok(id) => id,
        Err(_) => {
            return Err(CreateError::IdentifierExhausted);
        },
    };
    Ok(User { id, email, credential, salt, name })
}

/// Create a room: validate the non-empty name and mint a `RoomID`.
pub fn create_room(
    name: String,
    visibility: RoomVisibility,
    minter: &mut IdMinter<RoomTag>,
) -> (r: Result<Room, CreateError>)
    requires
        old(minter).wf(),
    ensures
        final(minter).wf(),
        name@.len() == 0 ==> {
            &&& r == Err::<Room, CreateError>(CreateError::Validation(ValidationError::EmptyName))
            &&& final(minter).last_value() == old(minter).last_value()
            &&& final(minter).minted() == old(minter).minted()
        },
        name@.len() > 0 && old(minter).last_value() == u64::MAX ==> {
            &&& r == Err::<Room, CreateError>(CreateError::IdentifierExhausted)
            &&& final(minter).last_value() == old(minter).last_value()
            &&& final(minter).minted() == old(minter).minted()
        },
        name@.len() > 0 && old(minter).last_value() < u64::MAX ==> {
            &&& r is Ok
            &&& r->Ok_0.name@ == name@
            &&& r->Ok_0.visibility == visibility
            &&& r->Ok_0.id.value() == old(minter).last_value() + 1
            &&& final(minter).last_value() == old(minter).last_value() + 1
            &&& final(minter).minted() == old(minter).minted().push(r->Ok_0.id.value())
            &&& room_wf(r->Ok_0)
        },
{
    if name.as_str().is_empty() {
        return Err(CreateError::Validation(ValidationError::EmptyName));
    }
    let id = match minter.next() {
        Ok(id) => id,
        Err(_) => {
            return Err(CreateError::IdentifierExhausted);
        },
    };
    Ok(Room { id, name, visibility })
}

/// The first invariant that message inputs break, if any, given the message
/// the store found for an `Edit`'s target and the ID the mint would assign
/// next. The checks, in order: the target was found and is the referenced
/// message; it has the same author; the same room; an editable variant
/// (`Message` or `DirectMessage`); and it strictly precedes the new ID.
pub open spec fn message_input_error(
    data: MessageData,
    user_id: UserID,
    room_id: RoomID,
    referenced: Option<&Message>,
    next_id: int,
) -> Option<ValidationError> {
    match data {
        MessageData::Message { message } => {
            if message@.len() == 0 {
                Some(ValidationError::EmptyMessage)
            } else {
                None
            }
        },
        MessageData::DirectMessage { message, recipient } => {
            if message@.len() == 0 {
                Some(ValidationError::EmptyMessage)
            } else if recipient.value() == user_id.value() {
                Some(ValidationError::SelfDirectMessage)
            } else {
                None
            }
        },
        MessageData::Edit { new_message, edit_id } => {
            match referenced {
                None => Some(ValidationError::EditTargetMissing),
                Some(prev) => {
                    if prev.id.value() != edit_id.value() {
                        Some(ValidationError::EditTargetMissing)
                    } else if prev.user_id.value() != user_id.value() {
                        Some(ValidationError::EditCrossUser)
                    } else if prev.room_id.value() != room_id.value() {
                        Some(ValidationError::EditCrossRoom)
                    } else if !(prev.data matches MessageData::Message { .. } || prev.data
                        matches MessageData::DirectMessage { .. }) {
                        Some(ValidationError::EditOfUneditable)
                    } else if edit_id.value() >= next_id {
                        Some(ValidationError::EditNotPrior)
                    } else {
                        None
                    }
                },
            }
        },
        MessageData::Join => None,
        MessageData::Leave => None,
    }
}

/// Edit well-formedness against the referenced message: the target is the
/// one the edit names, by the same author, in the same room, of an editable
/// variant, and minted strictly before the edit.
pub open spec fn edit_well_formed(m: Message, prev: Message) -> bool {
    match m.data {
        MessageData::Edit { new_message, edit_id } => {
            &&& prev.id.value() == edit_id.value()
            &&& prev.user_id.value() == m.user_id.value()
            &&& prev.room_id.value() == m.room_id.value()
            &&& edit_id.value() < m.id.value()
            &&& (prev.data matches MessageData::Message { .. } || prev.data
                matches MessageData::DirectMessage { .. })
        },
        _ => true,
    }
}

/// Create a message: validate the variant-specific invariants, mint a
/// `MessageID`, and stamp the clock. For an `Edit`, `referenced` is what
/// the external store found under the edit's target ID (`None` when the
/// lookup found nothing); the recipient of a `DirectMessage` is likewise
/// the store's concern and is checked only against the author.
pub fn create_message(
    user_id: &UserID,
    room_id: &RoomID,
    data: MessageData,
    referenced: Option<&Message>,
    minter: &mut IdMinter<MessageTag>,
    clock: &mut Clock,
) -> (r: Result<Message, CreateError>)
    requires
        old(minter).wf(),
    ensures
        final(minter).wf(),
        match message_input_error(
            data,
            *user_id,
            *room_id,
            referenced,
            old(minter).last_value() + 1,
        ) {
            Some(e) => r == Err::<Message, CreateError>(CreateError::Validation(e)),
            None => {
                if old(minter).last_value() == u64::MAX {
                    r == Err::<Message, CreateError>(CreateError::IdentifierExhausted)
                } else {
                    {
                        &&& r is Ok
                        &&& r->Ok_0.id.value() == old(minter).last_value() + 1
                        &&& r->Ok_0.user_id.value() == user_id.value()
                        &&& r->Ok_0.room_id.value() == room_id.value()
                        &&& r->Ok_0.data == data
                        &&& r->Ok_0.date.seconds() >= old(clock).last_returned()
                        &&& final(clock).last_returned() == r->Ok_0.date.seconds()
                        &&& final(minter).last_value() == old(minter).last_value() + 1
                        &&& final(minter).minted() == old(minter).minted().push(
                            r->Ok_0.id.value(),
                        )
                        &&& (data matches MessageData::Edit { .. } ==> referenced is Some)
                        &&& (referenced matches Some(prev) ==> edit_well_formed(r->Ok_0, *prev))
                    }
                }
            },
        },
        r is Err ==> {
            &&& final(minter).last_value() == old(minter).last_value()
            &&& final(minter).minted() == old(minter).minted()
            &&& final(clock).last_returned() == old(clock).last_returned()
        },
{
    match &data {
        MessageData::Message { message } => {
            if message.as_str().is_empty() {
                return Err(CreateError::Validation(ValidationError::EmptyMessage));
            }
        },
        MessageData::DirectMessage { message, recipient } => {
            if message.as_str().is_empty() {
                return Err(CreateError::Validation(ValidationError::EmptyMessage));
            }
            if recipient.same_as(user_id) {
                return Err(CreateError::Validation(ValidationError::SelfDirectMessage));
            }
        },
        MessageData::Edit { new_message, edit_id } => {
            match referenced {
                None => {
                    return Err(CreateError::Validation(ValidationError::EditTargetMissing));
                },
                Some(prev) => {
                    if !prev.id.same_as(edit_id) {
                        return Err(CreateError::Validation(ValidationError::EditTargetMissing));
                    }
                    if !prev.user_id.same_as(user_id) {
                        return Err(CreateError::Validation(ValidationError::EditCrossUser));
                    }
                    if !prev.room_id.same_as(room_id) {
                        return Err(CreateError::Validation(ValidationError::EditCrossRoom));
                    }
                    match &prev.data {
                        MessageData::Message { .. } => {},
                        MessageData::DirectMessage { .. } => {},
                        _ => {
                            return Err(
                                CreateError::Validation(ValidationError::EditOfUneditable),
                            );
                        },
                    }
                    if !minter.has_minted(edit_id) {
                        return Err(CreateError::Validation(ValidationError::EditNotPrior));
                    }
                },
            }
        },
        MessageData::Join => {},
        MessageData::Leave => {},
    }
    let id = match minter.next() {
        Ok(id) => id,
        Err(_) => {
            return Err(CreateError::IdentifierExhausted);
        },
    };
    let date = clock.now();
    Ok(Message { id, date, user_id: user_id.dup(), room_id: room_id.dup(), data })
}

} // verus!

