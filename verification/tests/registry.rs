use std::collections::HashMap;

use np::clock::Timestamp;
use np::event::NpSessionEvent;
use np::listener::{ImageWrapper, ManagerEventWrapper, SessionUpdateEventWrapper};
use np::model::{
    AlbumModel, AutoRepeatMode, MediaModel, PlaybackModel, PlaybackStatus, PlaybackType,
    SessionModel, TimelineModel,
};
use np::state::{apply_event, replay, updater, SessionRecord};

fn at(secs: u64) -> Timestamp {
    Timestamp { secs_since_epoch: secs, nanos_since_epoch: 0 }
}

fn model(title: &str) -> SessionModel {
    SessionModel {
        playback: Some(PlaybackModel {
            status: PlaybackStatus::Playing,
            kind: PlaybackType::Music,
            rate_bits: 0x3ff0_0000_0000_0000,
            shuffle: false,
            auto_repeat: AutoRepeatMode::Off,
        }),
        timeline: Some(TimelineModel {
            start: 0,
            end: 2_400_000_000,
            position: 15,
            last_updated_at_ms: 1_700_000_000_000,
        }),
        media: Some(MediaModel {
            title: title.to_string(),
            subtitle: String::new(),
            artist: "An Artist".to_string(),
            album: Some(AlbumModel {
                artist: "An Artist".to_string(),
                title: "An Album".to_string(),
                track_count: 12,
            }),
            track_number: Some(3),
            genres: vec!["ambient".to_string(), "drone".to_string()],
            playback_type: PlaybackType::Music,
        }),
        source: "Spotify.exe".to_string(),
    }
}

fn image() -> ImageWrapper {
    ImageWrapper { content_type: "image/png".to_string(), data: vec![0x89, 0x50, 0x4e, 0x47] }
}

fn created(session_id: usize, source: &str) -> NpSessionEvent {
    NpSessionEvent::Create(
        session_id,
        ManagerEventWrapper::SessionCreated { session_id, source: source.to_string() },
    )
}

fn removed(session_id: usize) -> NpSessionEvent {
    NpSessionEvent::Delete(session_id, ManagerEventWrapper::SessionRemoved { session_id })
}

fn model_update(session_id: usize, title: &str) -> NpSessionEvent {
    NpSessionEvent::Update(session_id, SessionUpdateEventWrapper::Model(model(title)))
}

fn media_update(session_id: usize, title: &str) -> NpSessionEvent {
    NpSessionEvent::Update(
        session_id,
        SessionUpdateEventWrapper::Media(model(title), Some(image())),
    )
}

#[test]
fn create_inserts_a_fresh_record() {
    let mut sessions = HashMap::new();
    let delta = apply_event(&mut sessions, created(1, "Spotify"), at(100));
    let expected = SessionRecord {
        session_id: 1,
        source: Some("Spotify".to_string()),
        timestamp_created: Some(at(100)),
        timestamp_updated: None,
        last_media_update: None,
        last_model_update: None,
    };
    assert_eq!(delta, ("session_create", Some(expected.clone())));
    assert_eq!(sessions.len(), 1);
    assert_eq!(sessions.get(&1), Some(&expected));
}

#[test]
fn session_lives_through_create_updates_and_delete() {
    let mut sessions = HashMap::new();

    apply_event(&mut sessions, created(1, "Spotify"), at(100));
    let record = sessions.get(&1).expect("the created session");
    assert_eq!(record.source, Some("Spotify".to_string()));
    assert_eq!(record.last_media_update, None);
    assert_eq!(record.last_model_update, None);

    let delta = apply_event(&mut sessions, model_update(1, "M1"), at(101));
    assert_eq!(delta.0, "session_update");
    let record = sessions.get(&1).expect("the updated session");
    assert_eq!(delta.1.as_ref(), Some(record));
    assert_eq!(record.source, Some("Spotify".to_string()));
    assert_eq!(record.last_model_update, Some(SessionUpdateEventWrapper::Model(model("M1"))));
    assert_eq!(record.last_media_update, None);

    let delta = apply_event(&mut sessions, media_update(1, "M2"), at(102));
    assert_eq!(delta.0, "session_update");
    let record = sessions.get(&1).expect("the updated session");
    assert_eq!(delta.1.as_ref(), Some(record));
    assert_eq!(record.last_model_update, Some(SessionUpdateEventWrapper::Model(model("M1"))));
    assert_eq!(
        record.last_media_update,
        Some(SessionUpdateEventWrapper::Media(model("M2"), Some(image())))
    );

    let delta = apply_event(&mut sessions, removed(1), at(103));
    assert!(sessions.is_empty());
    let expected = SessionRecord {
        session_id: 1,
        source: Some("Spotify".to_string()),
        timestamp_created: Some(at(100)),
        timestamp_updated: Some(at(102)),
        last_media_update: Some(SessionUpdateEventWrapper::Media(model("M2"), Some(image()))),
        last_model_update: Some(SessionUpdateEventWrapper::Model(model("M1"))),
    };
    assert_eq!(delta, ("session_delete", Some(expected)));
}

#[test]
fn second_delete_reports_no_record() {
    let mut sessions = HashMap::new();
    apply_event(&mut sessions, created(4, "Browser"), at(1));
    apply_event(&mut sessions, created(5, "Player"), at(2));

    let first = apply_event(&mut sessions, removed(4), at(3));
    assert_eq!(first.0, "session_delete");
    assert!(first.1.is_some());
    let after_first = sessions.clone();

    let second = apply_event(&mut sessions, removed(4), at(4));
    assert_eq!(second, ("session_delete", None));
    assert_eq!(sessions, after_first);
    assert!(sessions.contains_key(&5));
}

#[test]
fn delete_of_unknown_session_is_a_no_op() {
    let mut sessions: HashMap<usize, SessionRecord> = HashMap::new();
    let delta = apply_event(&mut sessions, removed(9), at(1));
    assert_eq!(delta, ("session_delete", None));
    assert!(sessions.is_empty());
}

#[test]
fn media_update_before_create_synthesizes_a_record() {
    let mut sessions = HashMap::new();
    let delta = apply_event(&mut sessions, media_update(7, "M"), at(50));
    let expected = SessionRecord {
        session_id: 7,
        source: None,
        timestamp_created: Some(at(50)),
        timestamp_updated: Some(at(50)),
        last_media_update: Some(SessionUpdateEventWrapper::Media(model("M"), Some(image()))),
        last_model_update: None,
    };
    assert_eq!(delta, ("session_update", Some(expected.clone())));
    assert_eq!(sessions.get(&7), Some(&expected));
    let record = sessions.get(&7).expect("the synthesized session");
    assert_eq!(record.timestamp_created, record.timestamp_updated);
}

#[test]
fn model_update_before_create_synthesizes_a_record() {
    let mut sessions = HashMap::new();
    let delta = apply_event(&mut sessions, model_update(8, "M"), at(51));
    let expected = SessionRecord {
        session_id: 8,
        source: None,
        timestamp_created: Some(at(51)),
        timestamp_updated: Some(at(51)),
        last_media_update: None,
        last_model_update: Some(SessionUpdateEventWrapper::Model(model("M"))),
    };
    assert_eq!(delta, ("session_update", Some(expected.clone())));
    assert_eq!(sessions.get(&8), Some(&expected));
}

#[test]
fn update_after_delete_synthesizes_again() {
    let mut sessions = HashMap::new();
    apply_event(&mut sessions, created(3, "Player"), at(1));
    apply_event(&mut sessions, removed(3), at(2));
    let delta = apply_event(&mut sessions, model_update(3, "late"), at(3));
    let record = delta.1.expect("the synthesized record");
    assert_eq!(record.source, None);
    assert_eq!(record.timestamp_created, Some(at(3)));
    assert_eq!(record.timestamp_updated, Some(at(3)));
    assert_eq!(sessions.get(&3), Some(&record));
}

#[test]
fn model_update_leaves_the_media_slot() {
    let mut sessions = HashMap::new();
    apply_event(&mut sessions, created(2, "Player"), at(10));
    apply_event(&mut sessions, media_update(2, "track"), at(11));
    let media_before = sessions.get(&2).expect("the session").last_media_update.clone();
    assert!(media_before.is_some());

    apply_event(&mut sessions, model_update(2, "M1"), at(12));
    let record = sessions.get(&2).expect("the session");
    assert_eq!(record.last_media_update, media_before);
    assert_eq!(record.last_model_update, Some(SessionUpdateEventWrapper::Model(model("M1"))));
    assert_eq!(record.timestamp_created, Some(at(10)));
    assert_eq!(record.timestamp_updated, Some(at(12)));
    assert_eq!(record.source, Some("Player".to_string()));
    assert_eq!(record.session_id, 2);
}

#[test]
fn media_update_leaves_the_model_slot() {
    let mut sessions = HashMap::new();
    apply_event(&mut sessions, created(2, "Player"), at(10));
    apply_event(&mut sessions, model_update(2, "M1"), at(11));
    let model_before = sessions.get(&2).expect("the session").last_model_update.clone();
    assert!(model_before.is_some());

    apply_event(
        &mut sessions,
        NpSessionEvent::Update(2, SessionUpdateEventWrapper::Media(model("M2"), None)),
        at(12),
    );
    let record = sessions.get(&2).expect("the session");
    assert_eq!(record.last_model_update, model_before);
    assert_eq!(record.last_media_update, Some(SessionUpdateEventWrapper::Media(model("M2"), None)));
    assert_eq!(record.timestamp_created, Some(at(10)));
    assert_eq!(record.timestamp_updated, Some(at(12)));
}

#[test]
fn later_update_replaces_the_slot_of_its_kind() {
    let mut sessions = HashMap::new();
    apply_event(&mut sessions, created(2, "Player"), at(10));
    apply_event(&mut sessions, model_update(2, "first"), at(11));
    apply_event(&mut sessions, model_update(2, "second"), at(12));
    let record = sessions.get(&2).expect("the session");
    assert_eq!(record.last_model_update, Some(SessionUpdateEventWrapper::Model(model("second"))));
}

#[test]
fn updates_of_two_sessions_commute() {
    let mut one_order = HashMap::new();
    apply_event(&mut one_order, created(1, "A"), at(1));
    apply_event(&mut one_order, created(2, "B"), at(2));
    let mut other_order = one_order.clone();

    apply_event(&mut one_order, model_update(1, "for one"), at(10));
    apply_event(&mut one_order, media_update(2, "for two"), at(11));

    apply_event(&mut other_order, media_update(2, "for two"), at(11));
    apply_event(&mut other_order, model_update(1, "for one"), at(10));

    assert_eq!(one_order, other_order);
    assert_eq!(one_order.get(&1).unwrap().timestamp_updated, Some(at(10)));
    assert_eq!(one_order.get(&2).unwrap().timestamp_updated, Some(at(11)));
}

#[test]
fn replay_gives_what_one_by_one_application_gives() {
    let run = vec![
        (created(1, "A"), at(1)),
        (media_update(2, "early"), at(2)),
        (created(2, "B"), at(3)),
        (model_update(1, "m"), at(4)),
        (NpSessionEvent::Unsupported(Some(1), "CurrentSessionChanged".to_string()), at(5)),
        (removed(1), at(6)),
        (removed(1), at(7)),
        (model_update(2, "n"), at(8)),
    ];

    let mut one_by_one = HashMap::new();
    let mut expected_deltas = Vec::new();
    for (event, now) in run.iter() {
        expected_deltas.push(apply_event(&mut one_by_one, event.clone(), *now));
    }

    let mut at_once = HashMap::new();
    let deltas = replay(&mut at_once, &run);
    assert_eq!(at_once, one_by_one);
    assert_eq!(deltas, expected_deltas);

    let mut again = HashMap::new();
    replay(&mut again, &run);
    assert_eq!(again, at_once);

    assert_eq!(at_once.len(), 1);
    let record = at_once.get(&2).expect("the second session");
    assert_eq!(record.source, Some("B".to_string()));
    assert_eq!(record.timestamp_created, Some(at(3)));
    assert_eq!(record.timestamp_updated, Some(at(8)));
    assert_eq!(record.last_media_update, None);
    assert_eq!(record.last_model_update, Some(SessionUpdateEventWrapper::Model(model("n"))));
    assert_eq!(deltas.len(), 8);
    assert_eq!(deltas[4], ("unsupported", None));
    assert_eq!(deltas[6], ("session_delete", None));
}

#[test]
fn same_event_at_the_same_time_has_the_same_outcome() {
    let mut one = HashMap::new();
    apply_event(&mut one, created(1, "A"), at(1));
    let mut other = one.clone();

    let first = apply_event(&mut one, media_update(1, "t"), at(7));
    let second = apply_event(&mut other, media_update(1, "t"), at(7));
    assert_eq!(first, second);
    assert_eq!(one, other);
}

#[test]
fn time_does_not_matter_to_an_event_that_writes_nothing() {
    let mut one = HashMap::new();
    apply_event(&mut one, created(1, "A"), at(1));
    apply_event(&mut one, model_update(1, "m"), at(2));
    let mut other = one.clone();

    let first = apply_event(&mut one, removed(1), at(3));
    let second = apply_event(&mut other, removed(1), at(99));
    assert_eq!(first, second);
    assert_eq!(one, other);

    let first = apply_event(
        &mut one,
        NpSessionEvent::Unsupported(Some(1), "CurrentSessionChanged".to_string()),
        at(4),
    );
    let second = apply_event(
        &mut other,
        NpSessionEvent::Unsupported(Some(1), "CurrentSessionChanged".to_string()),
        at(5),
    );
    assert_eq!(first, second);
    assert_eq!(one, other);
}

#[test]
fn replay_of_nothing_changes_nothing() {
    let mut sessions = HashMap::new();
    apply_event(&mut sessions, created(1, "A"), at(1));
    let before = sessions.clone();
    let deltas = replay(&mut sessions, &Vec::new());
    assert!(deltas.is_empty());
    assert_eq!(sessions, before);
}

#[test]
fn replay_in_two_parts_gives_the_same_registry() {
    let first = vec![(created(1, "A"), at(1)), (model_update(1, "m"), at(2))];
    let second = vec![(media_update(1, "t"), at(3)), (created(2, "B"), at(4))];
    let mut whole = first.clone();
    whole.extend(second.iter().cloned());

    let mut in_parts = HashMap::new();
    replay(&mut in_parts, &first);
    replay(&mut in_parts, &second);

    let mut in_one = HashMap::new();
    replay(&mut in_one, &whole);
    assert_eq!(in_parts, in_one);
}

#[test]
fn create_with_another_manager_event_writes_nothing() {
    let mut sessions = HashMap::new();
    apply_event(&mut sessions, created(1, "A"), at(1));
    let before = sessions.clone();

    let delta = apply_event(
        &mut sessions,
        NpSessionEvent::Create(1, ManagerEventWrapper::SessionRemoved { session_id: 1 }),
        at(2),
    );
    assert_eq!(delta, ("session_create", None));
    assert_eq!(sessions, before);

    let delta = apply_event(
        &mut sessions,
        NpSessionEvent::Create(
            6,
            ManagerEventWrapper::CurrentSessionChanged { session_id: Some(6) },
        ),
        at(3),
    );
    assert_eq!(delta, ("session_create", None));
    assert_eq!(sessions, before);
}

#[test]
fn create_stands_under_the_id_of_the_manager_event() {
    let mut sessions = HashMap::new();
    let delta = apply_event(
        &mut sessions,
        NpSessionEvent::Create(
            10,
            ManagerEventWrapper::SessionCreated { session_id: 11, source: "A".to_string() },
        ),
        at(1),
    );
    assert_eq!(delta.1.expect("the created record").session_id, 11);
    assert!(sessions.contains_key(&11));
    assert!(!sessions.contains_key(&10));
}

#[test]
fn create_of_a_known_session_starts_its_record_anew() {
    let mut sessions = HashMap::new();
    apply_event(&mut sessions, created(1, "A"), at(1));
    apply_event(&mut sessions, model_update(1, "m"), at(2));
    let delta = apply_event(&mut sessions, created(1, "B"), at(3));
    let expected = SessionRecord {
        session_id: 1,
        source: Some("B".to_string()),
        timestamp_created: Some(at(3)),
        timestamp_updated: None,
        last_media_update: None,
        last_model_update: None,
    };
    assert_eq!(delta, ("session_create", Some(expected.clone())));
    assert_eq!(sessions.get(&1), Some(&expected));
    assert_eq!(sessions.len(), 1);
}

#[test]
fn unsupported_event_changes_nothing() {
    let mut sessions = HashMap::new();
    apply_event(&mut sessions, created(1, "A"), at(1));
    let before = sessions.clone();
    let delta = apply_event(
        &mut sessions,
        NpSessionEvent::Unsupported(Some(1), "CurrentSessionChanged".to_string()),
        at(2),
    );
    assert_eq!(delta, ("unsupported", None));
    assert_eq!(sessions, before);
    let delta = apply_event(
        &mut sessions,
        NpSessionEvent::Unsupported(None, "CurrentSessionChanged".to_string()),
        at(3),
    );
    assert_eq!(delta, ("unsupported", None));
    assert_eq!(sessions, before);
}

#[test]
fn other_sessions_keep_their_records() {
    let mut sessions = HashMap::new();
    apply_event(&mut sessions, created(1, "A"), at(1));
    apply_event(&mut sessions, created(2, "B"), at(2));
    let other = sessions.get(&2).cloned();

    apply_event(&mut sessions, media_update(1, "t"), at(3));
    assert_eq!(sessions.get(&2).cloned(), other);
    apply_event(&mut sessions, removed(1), at(4));
    assert_eq!(sessions.get(&2).cloned(), other);
    apply_event(&mut sessions, created(3, "C"), at(5));
    assert_eq!(sessions.get(&2).cloned(), other);
}

#[test]
fn every_record_stands_under_its_own_id() {
    let run = vec![
        (created(1, "A"), at(1)),
        (media_update(5, "early"), at(2)),
        (model_update(1, "m"), at(3)),
        (created(9, "C"), at(4)),
        (removed(5), at(5)),
        (model_update(5, "back"), at(6)),
    ];
    let mut sessions = HashMap::new();
    replay(&mut sessions, &run);
    assert_eq!(sessions.len(), 3);
    for (session_id, record) in sessions.iter() {
        assert_eq!(record.session_id, *session_id);
        if let Some(update) = &record.last_media_update {
            assert!(matches!(update, SessionUpdateEventWrapper::Media(_, _)));
        }
        if let Some(update) = &record.last_model_update {
            assert!(matches!(update, SessionUpdateEventWrapper::Model(_)));
        }
    }
}

#[test]
fn no_record_is_updated_before_it_was_created_while_the_clock_goes_on() {
    let run = vec![
        (created(1, "A"), at(1)),
        (media_update(5, "early"), at(2)),
        (model_update(1, "m"), at(3)),
        (model_update(5, "n"), at(3)),
        (created(5, "C"), at(4)),
        (media_update(1, "t"), at(9)),
    ];
    let mut sessions = HashMap::new();
    replay(&mut sessions, &run);
    assert_eq!(sessions.len(), 2);
    for record in sessions.values() {
        if let (Some(created), Some(updated)) = (record.timestamp_created, record.timestamp_updated)
        {
            assert!(
                (created.secs_since_epoch, created.nanos_since_epoch)
                    <= (updated.secs_since_epoch, updated.nanos_since_epoch)
            );
        }
    }
    assert_eq!(sessions.get(&1).unwrap().timestamp_updated, Some(at(9)));
    assert_eq!(sessions.get(&5).unwrap().timestamp_updated, None);
}

#[test]
fn deltas_with_a_record_name_a_change_and_the_others_change_nothing() {
    let run = vec![
        (created(1, "A"), at(1)),
        (removed(2), at(2)),
        (NpSessionEvent::Unsupported(None, "CurrentSessionChanged".to_string()), at(3)),
        (media_update(2, "early"), at(4)),
        (NpSessionEvent::Create(3, ManagerEventWrapper::SessionRemoved { session_id: 3 }), at(5)),
        (removed(1), at(6)),
    ];
    let mut sessions = HashMap::new();
    for (event, now) in run {
        let before = sessions.clone();
        let delta = apply_event(&mut sessions, event, now);
        match delta.1 {
            Some(_) => assert!(
                ["session_create", "session_update", "session_delete"].contains(&delta.0)
            ),
            None => assert_eq!(sessions, before),
        }
    }
    assert_eq!(sessions.len(), 1);
}

#[test]
fn update_keeps_the_time_of_the_clock_even_when_it_went_back() {
    let mut sessions = HashMap::new();
    apply_event(&mut sessions, created(1, "A"), at(100));
    apply_event(&mut sessions, model_update(1, "m"), at(90));
    let record = sessions.get(&1).expect("the session");
    assert_eq!(record.timestamp_created, Some(at(100)));
    assert_eq!(record.timestamp_updated, Some(at(90)));
}

#[test]
fn updater_stamps_a_created_session_with_the_clock() {
    let before = Timestamp::now();
    let mut sessions = HashMap::new();
    let delta = updater(&mut sessions, created(1, "Spotify"));
    let after = Timestamp::now();

    assert_eq!(delta.0, "session_create");
    let record = delta.1.expect("the created record");
    assert_eq!(sessions.get(&1), Some(&record));
    assert_eq!(record.session_id, 1);
    assert_eq!(record.source, Some("Spotify".to_string()));
    assert_eq!(record.timestamp_updated, None);
    assert_eq!(record.last_media_update, None);
    assert_eq!(record.last_model_update, None);
    let created = record.timestamp_created.expect("the time of creation");
    assert!(created.nanos_since_epoch < 1_000_000_000);
    assert!(created.secs_since_epoch > 1_600_000_000);
    assert!(before.secs_since_epoch <= created.secs_since_epoch + 1);
    assert!(created.secs_since_epoch <= after.secs_since_epoch + 1);
}

#[test]
fn updater_synthesizes_with_one_reading_of_the_clock() {
    let mut sessions = HashMap::new();
    let delta = updater(&mut sessions, media_update(7, "M"));
    assert_eq!(delta.0, "session_update");
    let record = delta.1.expect("the synthesized record");
    assert!(record.timestamp_created.is_some());
    assert_eq!(record.timestamp_created, record.timestamp_updated);
    assert_eq!(record.source, None);
    assert_eq!(
        record.last_media_update,
        Some(SessionUpdateEventWrapper::Media(model("M"), Some(image())))
    );
    assert_eq!(record.last_model_update, None);
    assert_eq!(sessions.get(&7), Some(&record));
}

#[test]
fn updater_goes_through_a_session_s_life() {
    let mut sessions = HashMap::new();
    updater(&mut sessions, created(1, "Spotify"));
    let delta = updater(&mut sessions, model_update(1, "M1"));
    assert_eq!(delta.0, "session_update");
    let record = delta.1.expect("the updated record");
    assert!(record.timestamp_updated.is_some());
    assert_eq!(record.last_model_update, Some(SessionUpdateEventWrapper::Model(model("M1"))));

    let delta = updater(&mut sessions, removed(1));
    assert_eq!(delta.0, "session_delete");
    assert_eq!(delta.1, Some(record));
    assert!(sessions.is_empty());

    let delta = updater(&mut sessions, removed(1));
    assert_eq!(delta, ("session_delete", None));

    let delta = updater(
        &mut sessions,
        NpSessionEvent::Unsupported(None, "CurrentSessionChanged".to_string()),
    );
    assert_eq!(delta, ("unsupported", None));
    assert!(sessions.is_empty());
}

#[test]
fn clock_reads_a_well_formed_time() {
    let now = Timestamp::now();
    assert!(now.nanos_since_epoch < 1_000_000_000);
    assert!(now.secs_since_epoch > 1_600_000_000);
    let later = Timestamp::now();
    assert!(later.secs_since_epoch + 1 >= now.secs_since_epoch);
}

#[test]
fn elapsed_time_becomes_a_point_in_time() {
    assert_eq!(
        Timestamp::from_elapsed(Some((1_700_000_000, 123_456_789))),
        Timestamp { secs_since_epoch: 1_700_000_000, nanos_since_epoch: 123_456_789 }
    );
    assert_eq!(
        Timestamp::from_elapsed(Some((0, 0))),
        Timestamp { secs_since_epoch: 0, nanos_since_epoch: 0 }
    );
    assert_eq!(
        Timestamp::from_elapsed(Some((u64::MAX, 999_999_999))),
        Timestamp { secs_since_epoch: u64::MAX, nanos_since_epoch: 999_999_999 }
    );
}

#[test]
fn clock_before_the_epoch_reads_as_the_epoch() {
    assert_eq!(
        Timestamp::from_elapsed(None),
        Timestamp { secs_since_epoch: 0, nanos_since_epoch: 0 }
    );
}
