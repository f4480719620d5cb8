use pixum::cache::CacheWrite;
use pixum::error::AppError;
use pixum::fetch::{FetchReply, ProbeReply};
use pixum::metadata::{MetadataReply, RelatedWork, WorkDocument};
use pixum::response::{generate_http_headers, Resolved};
use pixum::url::Extension;
use pixum::work::{info, metadata_request, source, Action, Event, InfoResponse, Session, Stage};

type Bytes = Vec<u8>;

const REFERER_123: &str = "https://www.pixiv.net/member_illust.php?mode=medium&illust_id=123";
const NO_REASON: &str = "Information of the requested work could not be retrieved. The work might be deleted or have limited visibility.";

fn document(count: u16, original: Option<&str>, thumbnail: Option<&str>) -> WorkDocument {
    let mut related = vec![RelatedWork { id: String::from("77"), url: None }];
    if let Some(url) = thumbnail {
        related.push(RelatedWork { id: String::from("123"), url: Some(String::from(url)) });
    }
    WorkDocument {
        title: String::from("Study"),
        upload_time: String::from("2022-12-01T00:00:00+00:00"),
        entry_count: count,
        original_url: original.map(String::from),
        artist_id: String::from("4711"),
        artist_name: String::from("someone"),
        related,
    }
}

fn described(document: WorkDocument) -> Event<Bytes> {
    Event::Metadata {
        answer: MetadataReply::Document { error: false, message: None, body: Some(document) },
    }
}

fn fetched(status: u16, body: &[u8]) -> Event<Bytes> {
    Event::Fetched { reply: FetchReply::Answered { status, body: body.to_vec() } }
}

fn probe(extension: Extension, status: u16, body: &[u8]) -> ProbeReply<Bytes> {
    ProbeReply { extension, reply: FetchReply::Answered { status, body: body.to_vec() } }
}

fn failure(error: AppError) -> Action<Bytes> {
    Action::Finish { outcome: Err(error), remember: None }
}

fn at_stage(index: u16, stage: Stage) -> Session {
    Session { work_id: 123, index, stage }
}

/// A request for image `index` of work 123 that found nothing remembered
/// and waits for the metadata.
fn waiting_for_metadata(index: u16) -> Session {
    let (session, action) = source::<Bytes>(123, index);
    assert_eq!(action, Action::ConnectCache);
    let (session, action) = session.step(Event::<Bytes>::Connected { ok: true });
    assert!(matches!(action, Action::LookupCache { .. }));
    let (session, action) = session.step(Event::<Bytes>::CacheValue { url: None });
    assert!(matches!(action, Action::FetchMetadata { .. }));
    session
}

#[test]
fn request_for_image_zero_is_refused_at_once() {
    let (session, action) = source::<Bytes>(123, 0);
    assert_eq!(action, failure(AppError::ZeroQuery));
    assert!(session.is_done());
    let (session, action) = source::<Bytes>(4294967295, 0);
    assert_eq!(action, failure(AppError::ZeroQuery));
    assert!(session.is_done());
}

#[test]
fn session_for_image_zero_fails_at_every_stage() {
    let stages = vec![
        Stage::Connecting,
        Stage::Lookup,
        Stage::Metadata,
        Stage::Fetching { url: String::from("https://i.example/img/123_p0.png") },
        Stage::Done,
    ];
    for stage in stages {
        let (session, action) = at_stage(0, stage).step(fetched(200, b"x"));
        assert_eq!(action, failure(AppError::ZeroQuery));
        assert!(session.is_done());
    }
}

#[test]
fn request_begins_by_connecting_to_the_store() {
    let (session, action) = source::<Bytes>(123, 3);
    assert_eq!(action, Action::ConnectCache);
    assert_eq!(session, at_stage(3, Stage::Connecting));
    assert!(!session.is_done());
}

#[test]
fn store_out_of_reach_is_an_internal_failure() {
    let (session, _) = source::<Bytes>(123, 3);
    let (session, action) = session.step(Event::<Bytes>::Connected { ok: false });
    assert_eq!(action, failure(AppError::Internal));
    assert!(session.is_done());
}

#[test]
fn store_in_reach_is_asked_under_the_key_of_the_image() {
    let (session, _) = source::<Bytes>(123, 3);
    let (session, action) = session.step(Event::<Bytes>::Connected { ok: true });
    assert_eq!(action, Action::LookupCache { key: String::from("123_3") });
    assert_eq!(session, at_stage(3, Stage::Lookup));
}

#[test]
fn nothing_remembered_leads_to_the_service() {
    let (session, action) = at_stage(3, Stage::Lookup).step(Event::<Bytes>::CacheValue { url: None });
    assert_eq!(
        action,
        Action::FetchMetadata {
            url: String::from("https://www.pixiv.net/ajax/illust/123"),
            accept_language: String::from("en"),
        }
    );
    assert_eq!(session, at_stage(3, Stage::Metadata));
}

#[test]
fn remembered_address_is_asked_for_its_file() {
    let url = "https://i.example/img/123_p2.png";
    let (session, action) = at_stage(3, Stage::Lookup)
        .step(Event::<Bytes>::CacheValue { url: Some(String::from(url)) });
    assert_eq!(
        action,
        Action::Fetch { url: String::from(url), referer: String::from(REFERER_123) }
    );
    assert_eq!(session, at_stage(3, Stage::Verifying { url: String::from(url) }));
}

#[test]
fn file_at_remembered_address_answers_without_a_write() {
    let url = "https://i.example/img/123_p2.png";
    let (session, action) =
        at_stage(3, Stage::Verifying { url: String::from(url) }).step(fetched(200, b"png!"));
    assert_eq!(
        action,
        Action::Finish {
            outcome: Ok(Resolved {
                url: String::from(url),
                file_name: String::from("123_p2.png"),
                mime: String::from("image/png"),
                headers: generate_http_headers("123_p2.png", "image/png"),
                bytes: b"png!".to_vec(),
            }),
            remember: None,
        }
    );
    assert!(session.is_done());
}

#[test]
fn stale_remembered_address_is_dropped_and_the_service_asked() {
    let url = "https://i.example/img/123_p2.png";
    let (session, action) =
        at_stage(3, Stage::Verifying { url: String::from(url) }).step(fetched(404, b""));
    assert_eq!(action, Action::DeleteCache { key: String::from("123_3") });
    assert_eq!(session, at_stage(3, Stage::Invalidating));
    let (session, action) = session.step(Event::<Bytes>::CacheCleared);
    assert_eq!(
        action,
        Action::FetchMetadata {
            url: String::from("https://www.pixiv.net/ajax/illust/123"),
            accept_language: String::from("en"),
        }
    );
    assert_eq!(session, at_stage(3, Stage::Metadata));
}

#[test]
fn refused_remembered_address_fails_the_request() {
    let url = "https://i.example/img/123_p2.png";
    let (session, action) =
        at_stage(3, Stage::Verifying { url: String::from(url) }).step(fetched(403, b""));
    assert_eq!(action, failure(AppError::ArtworkUnavailable { message: String::from(NO_REASON) }));
    assert!(session.is_done());
    let (_, action) = at_stage(3, Stage::Verifying { url: String::from(url) })
        .step(Event::<Bytes>::Fetched { reply: FetchReply::Failed });
    assert_eq!(action, failure(AppError::ServerUnreachable));
}

#[test]
fn known_original_address_is_resolved_fetched_and_remembered() {
    let session = waiting_for_metadata(3);
    let (session, action) =
        session.step(described(document(5, Some("https://i.example/img/123_p0.png"), None)));
    assert_eq!(
        action,
        Action::Fetch {
            url: String::from("https://i.example/img/123_p2.png"),
            referer: String::from(REFERER_123),
        }
    );
    assert_eq!(
        session,
        at_stage(3, Stage::Fetching { url: String::from("https://i.example/img/123_p2.png") })
    );
    let (session, action) = session.step(fetched(200, b"\x89PNG"));
    assert!(session.is_done());
    match action {
        Action::Finish { outcome: Ok(found), remember: Some(write) } => {
            assert_eq!(found.url, "https://i.example/img/123_p2.png");
            assert_eq!(found.file_name, "123_p2.png");
            assert_eq!(found.mime, "image/png");
            assert!(found.headers.contains(&(String::from("Content-Type"), String::from("image/png"))));
            assert!(found.headers.contains(&(
                String::from("Content-Disposition"),
                String::from("inline; filename=\"123_p2.png\"")
            )));
            assert_eq!(found.bytes, b"\x89PNG".to_vec());
            assert_eq!(
                write,
                CacheWrite {
                    key: String::from("123_3"),
                    url: String::from("https://i.example/img/123_p2.png"),
                    ttl_seconds: 31_536_000,
                }
            );
        }
        other => panic!("unexpected action: {:?}", other),
    }
}

#[test]
fn thumbnail_only_is_resolved_by_three_guesses() {
    let session = waiting_for_metadata(1);
    let thumbnail = "https://i.example/c/250x250_80_a2/img-master/123_p0_square1200.jpg";
    let (session, action) = session.step(described(document(2, None, Some(thumbnail))));
    assert_eq!(
        action,
        Action::Probe {
            jpg: String::from("https://i.example/img-original/123_p0.jpg"),
            png: String::from("https://i.example/img-original/123_p0.png"),
            gif: String::from("https://i.example/img-original/123_p0.gif"),
            referer: String::from(REFERER_123),
        }
    );
    assert_eq!(
        session,
        at_stage(1, Stage::Probing { base: String::from("https://i.example/img-original/123_p0") })
    );
    let replies = vec![
        probe(Extension::Gif, 404, b""),
        probe(Extension::Png, 200, b"first"),
        probe(Extension::Jpg, 200, b"second"),
    ];
    let (session, action) = session.step(Event::Probed { replies });
    assert!(session.is_done());
    assert_eq!(
        action,
        Action::Finish {
            outcome: Ok(Resolved {
                url: String::from("https://i.example/img-original/123_p0.png"),
                file_name: String::from("123_p0.png"),
                mime: String::from("image/png"),
                headers: generate_http_headers("123_p0.png", "image/png"),
                bytes: b"first".to_vec(),
            }),
            remember: Some(CacheWrite {
                key: String::from("123_1"),
                url: String::from("https://i.example/img-original/123_p0.png"),
                ttl_seconds: 31_536_000,
            }),
        }
    );
}

#[test]
fn deleted_work_is_unavailable_with_the_remark_of_the_service() {
    let session = waiting_for_metadata(1);
    let (session, action) = session.step(Event::Metadata {
        answer: MetadataReply::Document {
            error: true,
            message: Some(String::from("deleted")),
            body: None,
        },
    });
    assert_eq!(action, failure(AppError::ArtworkUnavailable { message: String::from("deleted") }));
    assert!(session.is_done());
    match action {
        Action::Finish { outcome: Err(error), .. } => {
            assert_eq!(error.status_code(), 404);
            assert_eq!(error.message(), "deleted");
        }
        other => panic!("unexpected action: {:?}", other),
    }
}

#[test]
fn silent_service_is_unreachable() {
    let session = waiting_for_metadata(1);
    let (session, action) =
        session.step(Event::<Bytes>::Metadata { answer: MetadataReply::Unreachable });
    assert_eq!(action, failure(AppError::ServerUnreachable));
    assert!(session.is_done());
}

#[test]
fn index_right_above_the_maximum_is_too_high() {
    for count in [1u16, 2, 5, 200] {
        let max = count - 1;
        let session = waiting_for_metadata(max + 1);
        let (session, action) =
            session.step(described(document(count, Some("https://i.example/img/123_p0.png"), None)));
        assert_eq!(action, failure(AppError::TooHighQuery { max }));
        assert!(session.is_done());
    }
}

#[test]
fn index_far_above_the_maximum_is_too_high() {
    let session = waiting_for_metadata(65535);
    let (_, action) =
        session.step(described(document(5, Some("https://i.example/img/123_p0.png"), None)));
    assert_eq!(action, failure(AppError::TooHighQuery { max: 4 }));
}

#[test]
fn index_at_the_maximum_is_served() {
    for count in [2u16, 5, 200] {
        let max = count - 1;
        let session = waiting_for_metadata(max);
        let (session, action) =
            session.step(described(document(count, Some("https://i.example/img/123_p0.png"), None)));
        let expected = format!("https://i.example/img/123_p{}.png", max - 1);
        assert_eq!(
            action,
            Action::Fetch { url: expected.clone(), referer: String::from(REFERER_123) }
        );
        let (_, action) = session.step(fetched(200, b"ok"));
        match action {
            Action::Finish { outcome: Ok(found), remember: Some(write) } => {
                assert_eq!(found.url, expected);
                assert_eq!(write.url, expected);
                assert_eq!(write.key, format!("123_{}", max));
            }
            other => panic!("unexpected action: {:?}", other),
        }
    }
}

#[test]
fn work_that_reports_no_entries_has_no_image_to_ask_for() {
    let session = waiting_for_metadata(1);
    let (_, action) =
        session.step(described(document(0, Some("https://i.example/img/123_p0.png"), None)));
    assert_eq!(action, failure(AppError::TooHighQuery { max: 0 }));
}

#[test]
fn work_without_any_address_is_unavailable() {
    let session = waiting_for_metadata(1);
    let (session, action) = session.step(described(document(3, None, None)));
    assert_eq!(action, failure(AppError::ArtworkUnavailable { message: String::from(NO_REASON) }));
    assert!(session.is_done());
}

#[test]
fn derived_address_that_holds_nothing_leaves_the_work_unavailable() {
    let url = "https://i.example/img/123_p2.png";
    let (session, action) =
        at_stage(3, Stage::Fetching { url: String::from(url) }).step(fetched(404, b""));
    assert_eq!(action, failure(AppError::ArtworkUnavailable { message: String::from(NO_REASON) }));
    assert!(session.is_done());
}

#[test]
fn derived_address_that_is_refused_or_silent_fails_the_request() {
    let url = "https://i.example/img/123_p2.png";
    let (_, action) =
        at_stage(3, Stage::Fetching { url: String::from(url) }).step(fetched(500, b""));
    assert_eq!(action, failure(AppError::ArtworkUnavailable { message: String::from(NO_REASON) }));
    let (_, action) = at_stage(3, Stage::Fetching { url: String::from(url) })
        .step(Event::<Bytes>::Fetched { reply: FetchReply::Failed });
    assert_eq!(action, failure(AppError::ServerUnreachable));
}

#[test]
fn single_delivery_wins_at_every_place_and_in_every_format() {
    let base = "https://i.example/img-original/123_p4";
    let formats = [Extension::Jpg, Extension::Png, Extension::Gif];
    let types = ["image/jpeg", "image/png", "image/gif"];
    for winner in 0..3usize {
        for place in 0..3usize {
            let mut others = Vec::new();
            for (i, format) in formats.iter().enumerate() {
                if i != winner {
                    others.push(*format);
                }
            }
            let mut replies = Vec::new();
            for slot in 0..3usize {
                if slot == place {
                    replies.push(probe(formats[winner], 200, b"the one"));
                } else if slot % 2 == 0 {
                    replies.push(probe(others.pop().unwrap(), 404, b"none"));
                } else {
                    replies.push(ProbeReply {
                        extension: others.pop().unwrap(),
                        reply: FetchReply::Failed,
                    });
                }
            }
            let session = at_stage(5, Stage::Probing { base: String::from(base) });
            let (session, action) = session.step(Event::Probed { replies });
            assert!(session.is_done());
            let url = format!("{}.{}", base, formats[winner].as_str());
            let name = format!("123_p4.{}", formats[winner].as_str());
            assert_eq!(
                action,
                Action::Finish {
                    outcome: Ok(Resolved {
                        url: url.clone(),
                        file_name: name.clone(),
                        mime: String::from(types[winner]),
                        headers: generate_http_headers(&name, types[winner]),
                        bytes: b"the one".to_vec(),
                    }),
                    remember: Some(CacheWrite {
                        key: String::from("123_5"),
                        url,
                        ttl_seconds: 31_536_000,
                    }),
                }
            );
        }
    }
}

#[test]
fn guesses_without_delivery_leave_the_work_unavailable() {
    let base = "https://i.example/img-original/123_p0";
    let replies = vec![
        probe(Extension::Jpg, 404, b""),
        ProbeReply { extension: Extension::Png, reply: FetchReply::Failed },
        probe(Extension::Gif, 403, b""),
    ];
    let (session, action) =
        at_stage(1, Stage::Probing { base: String::from(base) }).step(Event::Probed { replies });
    assert_eq!(action, failure(AppError::ArtworkUnavailable { message: String::from(NO_REASON) }));
    assert!(session.is_done());
    let (_, action) = at_stage(1, Stage::Probing { base: String::from(base) })
        .step(Event::<Bytes>::Probed { replies: Vec::new() });
    assert_eq!(action, failure(AppError::ArtworkUnavailable { message: String::from(NO_REASON) }));
}

#[test]
fn failed_guess_does_not_stop_a_later_delivery() {
    let base = "https://i.example/img-original/123_p0";
    let replies = vec![
        ProbeReply { extension: Extension::Jpg, reply: FetchReply::Failed },
        probe(Extension::Gif, 200, b"gif"),
    ];
    let (_, action) =
        at_stage(1, Stage::Probing { base: String::from(base) }).step(Event::Probed { replies });
    match action {
        Action::Finish { outcome: Ok(found), remember: Some(write) } => {
            assert_eq!(found.url, "https://i.example/img-original/123_p0.gif");
            assert_eq!(found.mime, "image/gif");
            assert_eq!(found.bytes, b"gif".to_vec());
            assert_eq!(write.url, "https://i.example/img-original/123_p0.gif");
        }
        other => panic!("unexpected action: {:?}", other),
    }
}

#[test]
fn event_out_of_step_is_an_internal_failure() {
    let (session, action) = at_stage(3, Stage::Connecting).step(fetched(200, b"x"));
    assert_eq!(action, failure(AppError::Internal));
    assert!(session.is_done());
    let (_, action) = at_stage(3, Stage::Lookup).step(Event::<Bytes>::Connected { ok: true });
    assert_eq!(action, failure(AppError::Internal));
    let (_, action) = at_stage(3, Stage::Metadata).step(Event::<Bytes>::CacheCleared);
    assert_eq!(action, failure(AppError::Internal));
    let (_, action) = at_stage(3, Stage::Invalidating).step(Event::<Bytes>::CacheValue { url: None });
    assert_eq!(action, failure(AppError::Internal));
    let (_, action) = at_stage(3, Stage::Probing { base: String::from("b") }).step(fetched(200, b"x"));
    assert_eq!(action, failure(AppError::Internal));
    let (_, action) = at_stage(3, Stage::Fetching { url: String::from("u") })
        .step(Event::<Bytes>::Probed { replies: Vec::new() });
    assert_eq!(action, failure(AppError::Internal));
}

#[test]
fn answered_request_takes_no_further_event() {
    let (session, action) = at_stage(3, Stage::Done).step(fetched(200, b"x"));
    assert_eq!(action, failure(AppError::Internal));
    assert!(session.is_done());
}

#[test]
fn every_request_for_a_file_names_the_referring_page() {
    let (_, action) = at_stage(3, Stage::Lookup)
        .step(Event::<Bytes>::CacheValue { url: Some(String::from("https://i.example/a.png")) });
    assert!(matches!(action, Action::Fetch { referer, .. } if referer == REFERER_123));
    let (_, action) = at_stage(3, Stage::Metadata)
        .step(described(document(5, Some("https://i.example/img/123_p0.png"), None)));
    assert!(matches!(action, Action::Fetch { referer, .. } if referer == REFERER_123));
    let (_, action) = at_stage(3, Stage::Metadata)
        .step(described(document(5, None, Some("https://i.example/t/123_p0_square1200.jpg"))));
    assert!(matches!(action, Action::Probe { referer, .. } if referer == REFERER_123));
}

#[test]
fn remembered_address_of_one_request_serves_the_next() {
    let session = waiting_for_metadata(3);
    let (session, _) =
        session.step(described(document(5, Some("https://i.example/img/123_p0.png"), None)));
    let (_, action) = session.step(fetched(200, b"img"));
    let write = match action {
        Action::Finish { outcome: Ok(_), remember: Some(write) } => write,
        other => panic!("unexpected action: {:?}", other),
    };
    let (session, _) = source::<Bytes>(123, 3);
    let (session, action) = session.step(Event::<Bytes>::Connected { ok: true });
    assert_eq!(action, Action::LookupCache { key: write.key });
    let (session, action) = session.step(Event::<Bytes>::CacheValue { url: Some(write.url) });
    assert_eq!(
        action,
        Action::Fetch {
            url: String::from("https://i.example/img/123_p2.png"),
            referer: String::from(REFERER_123),
        }
    );
    let (_, action) = session.step(fetched(200, b"img"));
    assert!(matches!(action, Action::Finish { outcome: Ok(_), remember: None }));
}

#[test]
fn info_describes_the_work() {
    let reply = MetadataReply::Document {
        error: false,
        message: Some(String::new()),
        body: Some(document(5, Some("https://i.example/img/123_p0.png"), None)),
    };
    assert_eq!(
        info(123, reply),
        Ok(InfoResponse {
            artist_name: String::from("someone"),
            artist_id: Some(4711),
            work_id: 123,
            title: String::from("Study"),
            upload_time: String::from("2022-12-01T00:00:00+00:00"),
            length: 4,
            original_url: Some(String::from("https://i.example/img/123_p0.png")),
        })
    );
}

#[test]
fn info_leaves_out_an_artist_id_that_is_no_number() {
    let mut body = document(2, None, None);
    body.artist_id = String::from("n/a");
    let reply = MetadataReply::Document { error: false, message: None, body: Some(body) };
    let response = info(123, reply).unwrap();
    assert_eq!(response.artist_id, None);
    assert_eq!(response.length, 1);
    assert_eq!(response.original_url, None);
}

#[test]
fn info_fails_as_the_reply_does() {
    assert_eq!(info(123, MetadataReply::Unreachable), Err(AppError::ServerUnreachable));
    let reply = MetadataReply::Document {
        error: true,
        message: Some(String::from("deleted")),
        body: None,
    };
    assert_eq!(
        info(123, reply),
        Err(AppError::ArtworkUnavailable { message: String::from("deleted") })
    );
}

#[test]
fn metadata_request_asks_the_service_in_english() {
    assert_eq!(
        metadata_request::<Bytes>(123),
        Action::FetchMetadata {
            url: String::from("https://www.pixiv.net/ajax/illust/123"),
            accept_language: String::from("en"),
        }
    );
}
