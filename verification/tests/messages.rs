//! Message creation: variant validation, edits, projections, dates.

use chat_core::entities::{MessageData, MessageTag, RoomTag, UserTag};
use chat_core::ids::IdMinter;
use chat_core::time::Clock;
use chat_core::validation::{create_message, CreateError, ValidationError};

#[test]
fn plain_message_is_created() {
    let mut users = IdMinter::<UserTag>::new();
    let mut rooms = IdMinter::<RoomTag>::new();
    let mut messages = IdMinter::<MessageTag>::new();
    let mut clock = Clock::new();
    let u1 = users.next().expect("mint");
    let r1 = rooms.next().expect("mint");
    let m = create_message(
        &u1,
        &r1,
        MessageData::Message { message: "hello".to_string() },
        None,
        &mut messages,
        &mut clock,
    )
    .expect("create");
    assert_eq!(m.user_id, u1);
    assert_eq!(m.room_id, r1);
    assert_eq!(m.data.body().as_deref(), Some("hello"));
    assert_eq!(m.data.targets(), None);
    assert_eq!(m.data.references(), None);
}

#[test]
fn empty_text_is_rejected() {
    let mut users = IdMinter::<UserTag>::new();
    let mut rooms = IdMinter::<RoomTag>::new();
    let mut messages = IdMinter::<MessageTag>::new();
    let mut clock = Clock::new();
    let u1 = users.next().expect("mint");
    let u2 = users.next().expect("mint");
    let r1 = rooms.next().expect("mint");
    assert_eq!(
        create_message(
            &u1,
            &r1,
            MessageData::Message { message: String::new() },
            None,
            &mut messages,
            &mut clock,
        ),
        Err(CreateError::Validation(ValidationError::EmptyMessage))
    );
    assert_eq!(
        create_message(
            &u1,
            &r1,
            MessageData::DirectMessage { message: String::new(), recipient: u2 },
            None,
            &mut messages,
            &mut clock,
        ),
        Err(CreateError::Validation(ValidationError::EmptyMessage))
    );
}

#[test]
fn direct_message_to_self_is_rejected() {
    let mut users = IdMinter::<UserTag>::new();
    let mut rooms = IdMinter::<RoomTag>::new();
    let mut messages = IdMinter::<MessageTag>::new();
    let mut clock = Clock::new();
    let u1 = users.next().expect("mint");
    let r1 = rooms.next().expect("mint");
    assert_eq!(
        create_message(
            &u1,
            &r1,
            MessageData::DirectMessage { message: "hi".to_string(), recipient: u1 },
            None,
            &mut messages,
            &mut clock,
        ),
        Err(CreateError::Validation(ValidationError::SelfDirectMessage))
    );
}

#[test]
fn direct_message_targets_its_recipient() {
    let mut users = IdMinter::<UserTag>::new();
    let mut rooms = IdMinter::<RoomTag>::new();
    let mut messages = IdMinter::<MessageTag>::new();
    let mut clock = Clock::new();
    let u1 = users.next().expect("mint");
    let u2 = users.next().expect("mint");
    let r1 = rooms.next().expect("mint");
    let dm = create_message(
        &u1,
        &r1,
        MessageData::DirectMessage { message: "psst".to_string(), recipient: u2 },
        None,
        &mut messages,
        &mut clock,
    )
    .expect("create");
    assert_eq!(dm.data.targets(), Some(u2));
    assert_eq!(dm.data.body().as_deref(), Some("psst"));
}

#[test]
fn edit_of_prior_message_is_well_formed() {
    let mut users = IdMinter::<UserTag>::new();
    let mut rooms = IdMinter::<RoomTag>::new();
    let mut messages = IdMinter::<MessageTag>::new();
    let mut clock = Clock::new();
    let u1 = users.next().expect("mint");
    let r1 = rooms.next().expect("mint");
    let m1 = create_message(
        &u1,
        &r1,
        MessageData::Message { message: "one".to_string() },
        None,
        &mut messages,
        &mut clock,
    )
    .expect("create");
    let edit = create_message(
        &u1,
        &r1,
        MessageData::Edit { new_message: "two".to_string(), edit_id: m1.id },
        Some(&m1),
        &mut messages,
        &mut clock,
    )
    .expect("create");
    assert!(m1.id < edit.id);
    assert_eq!(edit.data.references(), Some(m1.id));
    assert_eq!(edit.data.body().as_deref(), Some("two"));
    assert_eq!(edit.user_id, m1.user_id);
    assert_eq!(edit.room_id, m1.room_id);
    assert!(m1.date <= edit.date);
}

#[test]
fn edit_of_non_prior_message_is_rejected() {
    let mut users = IdMinter::<UserTag>::new();
    let mut rooms = IdMinter::<RoomTag>::new();
    let mut messages = IdMinter::<MessageTag>::new();
    let mut clock = Clock::new();
    let u1 = users.next().expect("mint");
    let r1 = rooms.next().expect("mint");
    let _m1 = create_message(
        &u1,
        &r1,
        MessageData::Message { message: "one".to_string() },
        None,
        &mut messages,
        &mut clock,
    )
    .expect("create");
    let m2 = create_message(
        &u1,
        &r1,
        MessageData::Message { message: "two".to_string() },
        None,
        &mut messages,
        &mut clock,
    )
    .expect("create");
    // A minter that lags behind m2: the edit's ID would not exceed m2.id.
    let mut stale = IdMinter::<MessageTag>::new();
    assert_eq!(
        create_message(
            &u1,
            &r1,
            MessageData::Edit { new_message: "x".to_string(), edit_id: m2.id },
            Some(&m2),
            &mut stale,
            &mut clock,
        ),
        Err(CreateError::Validation(ValidationError::EditNotPrior))
    );
}

#[test]
fn cross_room_edit_is_rejected() {
    let mut users = IdMinter::<UserTag>::new();
    let mut rooms = IdMinter::<RoomTag>::new();
    let mut messages = IdMinter::<MessageTag>::new();
    let mut clock = Clock::new();
    let u1 = users.next().expect("mint");
    let r1 = rooms.next().expect("mint");
    let r2 = rooms.next().expect("mint");
    let m1 = create_message(
        &u1,
        &r1,
        MessageData::Message { message: "one".to_string() },
        None,
        &mut messages,
        &mut clock,
    )
    .expect("create");
    assert_eq!(
        create_message(
            &u1,
            &r2,
            MessageData::Edit { new_message: "x".to_string(), edit_id: m1.id },
            Some(&m1),
            &mut messages,
            &mut clock,
        ),
        Err(CreateError::Validation(ValidationError::EditCrossRoom))
    );
}

#[test]
fn cross_user_edit_is_rejected() {
    let mut users = IdMinter::<UserTag>::new();
    let mut rooms = IdMinter::<RoomTag>::new();
    let mut messages = IdMinter::<MessageTag>::new();
    let mut clock = Clock::new();
    let u1 = users.next().expect("mint");
    let u2 = users.next().expect("mint");
    let r1 = rooms.next().expect("mint");
    let m1 = create_message(
        &u1,
        &r1,
        MessageData::Message { message: "one".to_string() },
        None,
        &mut messages,
        &mut clock,
    )
    .expect("create");
    assert_eq!(
        create_message(
            &u2,
            &r1,
            MessageData::Edit { new_message: "x".to_string(), edit_id: m1.id },
            Some(&m1),
            &mut messages,
            &mut clock,
        ),
        Err(CreateError::Validation(ValidationError::EditCrossUser))
    );
}

#[test]
fn edit_target_must_be_found_and_match() {
    let mut users = IdMinter::<UserTag>::new();
    let mut rooms = IdMinter::<RoomTag>::new();
    let mut messages = IdMinter::<MessageTag>::new();
    let mut clock = Clock::new();
    let u1 = users.next().expect("mint");
    let r1 = rooms.next().expect("mint");
    let m1 = create_message(
        &u1,
        &r1,
        MessageData::Message { message: "one".to_string() },
        None,
        &mut messages,
        &mut clock,
    )
    .expect("create");
    let m2 = create_message(
        &u1,
        &r1,
        MessageData::Message { message: "two".to_string() },
        None,
        &mut messages,
        &mut clock,
    )
    .expect("create");
    // The store found nothing.
    assert_eq!(
        create_message(
            &u1,
            &r1,
            MessageData::Edit { new_message: "x".to_string(), edit_id: m1.id },
            None,
            &mut messages,
            &mut clock,
        ),
        Err(CreateError::Validation(ValidationError::EditTargetMissing))
    );
    // The store handed back a different message than the edit names.
    assert_eq!(
        create_message(
            &u1,
            &r1,
            MessageData::Edit { new_message: "x".to_string(), edit_id: m1.id },
            Some(&m2),
            &mut messages,
            &mut clock,
        ),
        Err(CreateError::Validation(ValidationError::EditTargetMissing))
    );
}

#[test]
fn edit_of_uneditable_variant_is_rejected() {
    let mut users = IdMinter::<UserTag>::new();
    let mut rooms = IdMinter::<RoomTag>::new();
    let mut messages = IdMinter::<MessageTag>::new();
    let mut clock = Clock::new();
    let u1 = users.next().expect("mint");
    let r1 = rooms.next().expect("mint");
    let joined = create_message(&u1, &r1, MessageData::Join, None, &mut messages, &mut clock)
        .expect("create");
    assert_eq!(
        create_message(
            &u1,
            &r1,
            MessageData::Edit { new_message: "x".to_string(), edit_id: joined.id },
            Some(&joined),
            &mut messages,
            &mut clock,
        ),
        Err(CreateError::Validation(ValidationError::EditOfUneditable))
    );
}

#[test]
fn join_and_leave_carry_no_payload() {
    let mut users = IdMinter::<UserTag>::new();
    let mut rooms = IdMinter::<RoomTag>::new();
    let mut messages = IdMinter::<MessageTag>::new();
    let mut clock = Clock::new();
    let u1 = users.next().expect("mint");
    let r1 = rooms.next().expect("mint");
    let joined = create_message(&u1, &r1, MessageData::Join, None, &mut messages, &mut clock)
        .expect("create");
    let left = create_message(&u1, &r1, MessageData::Leave, None, &mut messages, &mut clock)
        .expect("create");
    for m in [&joined, &left] {
        assert_eq!(m.data.body(), None);
        assert_eq!(m.data.targets(), None);
        assert_eq!(m.data.references(), None);
    }
    assert!(joined.id < left.id);
}

#[test]
fn dates_are_non_decreasing_with_ids() {
    let mut users = IdMinter::<UserTag>::new();
    let mut rooms = IdMinter::<RoomTag>::new();
    let mut messages = IdMinter::<MessageTag>::new();
    let mut clock = Clock::new();
    let u1 = users.next().expect("mint");
    let r1 = rooms.next().expect("mint");
    let mut previous: Option<chat_core::entities::Message> = None;
    for text in ["a", "b", "c", "d"] {
        let m = create_message(
            &u1,
            &r1,
            MessageData::Message { message: text.to_string() },
            None,
            &mut messages,
            &mut clock,
        )
        .expect("create");
        if let Some(p) = &previous {
            assert!(p.id < m.id);
            assert!(p.date <= m.date);
        }
        previous = Some(m);
    }
}
