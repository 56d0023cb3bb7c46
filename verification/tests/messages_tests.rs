use signals::controllers::ping::PingController;
use signals::controllers::rooms::{Controller as RoomsController, Work};
use signals::controllers::{MainController, Response};
use signals::id::Id;
use signals::messages::agent;
use signals::messages::direct::{
    Message, RoomsCreateRequest, RoomsListRequest, RoomsReadRequest,
};
use signals::messages::query_parameters::{Oper, QueryParameters};
use signals::messages::room;
use signals::messages::state;
use signals::messages::subscription;
use signals::messages::track;
use signals::messages::webrtc::{
    AnswerNotificationData, AnswerRequest, AnswerRequestData, CandidateNotificationData,
    CandidateRequest, CandidateRequestData, NotificationParams, OfferNotificationData,
    OfferRequest, OfferRequestData, Request, Track as OfferedTrack, WebrtcMethod,
};
use signals::messages::{
    Envelope, EnvelopeMessage, EnvelopeSubject, Event, EventKind, Method, Notification,
};
use chrono::{DateTime, NaiveDateTime};
use serde_json::Value;
use signals::models::{Agent, NewRoom, NewTrack, Room, RoomAgent, RoomCapacity, Track};
use signals::settings::{RoomSettings, Settings};
use signals::topic::{
    AgentTopic, AgentTopicKind, AppTopic, PingTopicKind, ResourceKind, Topic,
};
use signals::version::Version;
use signals::{handle_message, notify, subscribe, Publication, QoS};

const ROOM: u128 = 0x058df47073ea43a4b36ce4615cad468e;
const AGENT: u128 = 0xe19c94cf53eb40489c947ae74ff6d912;
const TRACK: u128 = 0x7945cf5b2c73493680cb5cce27e9950d;

fn moment() -> NaiveDateTime {
    DateTime::from_timestamp(1_530_000_000, 250)
        .unwrap()
        .naive_utc()
}

fn json(text: &str) -> Value {
    serde_json::from_str(text).unwrap()
}

fn a_room() -> Room {
    Room {
        id: Id::new(ROOM),
        label: "hall".to_string(),
        created_at: moment(),
        capacity: RoomCapacity::new(7),
    }
}

fn a_membership() -> RoomAgent {
    RoomAgent {
        agent_id: Id::new(AGENT),
        room_id: Id::new(ROOM),
        label: "alice".to_string(),
        created_at: moment(),
    }
}

fn a_track() -> Track {
    Track {
        id: Id::new(TRACK),
        owner_id: Id::new(AGENT),
        metadata: json("{\"kind\":\"video\"}"),
    }
}

#[test]
fn query_parameters_keep_a_filter() {
    let params = QueryParameters::new(Some("123".to_owned()));
    assert_eq!(params.fq, Some("123".to_owned()));
}

#[test]
fn query_parameters_drop_an_empty_filter() {
    let params = QueryParameters::new(Some("".to_owned()));
    assert_eq!(params.fq, None);
}

#[test]
fn query_parameters_without_a_filter() {
    let params = QueryParameters::new(None);
    assert_eq!(params.fq, None);
    assert_ne!(Oper::And, Oper::Or);
}

#[test]
fn envelope_holds_subject_and_message() {
    let sub = EnvelopeSubject {
        account_id: Id::parse("31517b3d-5a14-4a14-a6c5-2ba63f7375d3").unwrap(),
        agent_id: Id::parse("85c36f15-5021-4ab8-91a8-0f972cdb6d3a").unwrap(),
    };
    let envelope = Envelope::new(sub, EnvelopeMessage::new("ping".to_string()));
    let expected = Envelope {
        sub: EnvelopeSubject {
            account_id: Id::new(0x31517b3d5a144a14a6c52ba63f7375d3),
            agent_id: Id::new(0x85c36f1550214ab891a80f972cdb6d3a),
        },
        msg: EnvelopeMessage("ping".to_string()),
    };
    assert_eq!(envelope, expected);
    assert_eq!(envelope.msg.as_str(), "ping");
}

#[test]
fn track_delete_goes_to_the_tracks_of_the_room() {
    let event = Event::new(Id::new(ROOM), track::DeleteResponse::new(&a_track()));
    let notification = Notification::from(EventKind::from(event));
    assert!(notification.is_outbound());
    let topic = notification.destination();
    assert_eq!(
        topic,
        Topic::App(AppTopic {
            room_id: Id::new(ROOM),
            resource: ResourceKind::Tracks,
        })
    );
    assert_eq!(
        topic.to_string(),
        "apps/signals.netology-group.services/api/v1/rooms/058df470-73ea-43a4-b36c-e4615cad468e/tracks"
    );
}

#[test]
fn events_go_to_their_room() {
    let agents = Topic::App(AppTopic {
        room_id: Id::new(ROOM),
        resource: ResourceKind::Agents,
    });
    let tracks = Topic::App(AppTopic {
        room_id: Id::new(ROOM),
        resource: ResourceKind::Tracks,
    });
    let created = EventKind::AgentCreate(Event::new(
        Id::new(ROOM),
        agent::CreateResponse::new(&a_membership()),
    ));
    assert_eq!(created.tag(), "agent.create");
    assert_eq!(Notification::Event(created).destination(), agents);
    let deleted = EventKind::from(Event::new(
        Id::new(ROOM),
        agent::DeleteResponse::new(&a_membership()),
    ));
    assert_eq!(deleted.tag(), "agent.delete");
    assert_eq!(Notification::Event(deleted).destination(), agents);
    let track_created =
        EventKind::from(Event::new(Id::new(ROOM), track::CreateResponse::new(&a_track())));
    assert_eq!(track_created.tag(), "track.create");
    assert!(matches!(track_created, EventKind::TrackCreate(_)));
    assert_eq!(Notification::Event(track_created).destination(), tracks);
    let track_updated = EventKind::TrackUpdate(Event::new(
        Id::new(ROOM),
        track::CreateResponse::new(&a_track()),
    ));
    assert_eq!(track_updated.tag(), "track.update");
    assert_eq!(Notification::Event(track_updated).destination(), tracks);
    let track_deleted =
        EventKind::TrackDelete(Event::new(Id::new(ROOM), track::DeleteResponse::new(&a_track())));
    assert_eq!(track_deleted.tag(), "track.delete");
    assert_eq!(track_deleted.topic(), Some(AppTopic { room_id: Id::new(ROOM), resource: ResourceKind::Tracks }));
}

#[test]
fn a_change_of_presence_is_not_published() {
    let event = state::UpdateEvent::new(Id::new(AGENT), false);
    assert_eq!(event.agent_id(), Id::new(AGENT));
    assert!(!event.is_online());
    assert!(state::UpdateEvent::new(Id::new(AGENT), true).is_online());
    let kind = EventKind::from(event);
    assert_eq!(kind.tag(), "state.update");
    assert_eq!(kind.topic(), None);
    assert!(!Notification::Event(kind).is_outbound());
}

fn an_offer() -> OfferRequest {
    Request {
        room_id: Id::new(ROOM),
        data: OfferRequestData {
            jsep: json("{\"type\":\"offer\"}"),
            from: Id::new(AGENT),
            to: Id::new(TRACK),
            tracks: vec![OfferedTrack { id: Id::new(1) }, OfferedTrack { id: Id::new(2) }],
        },
    }
}

#[test]
fn an_offer_goes_to_its_recipient() {
    let method = Method::from(an_offer());
    assert_eq!(method.agent_id, Id::new(TRACK));
    assert_eq!(method.body.method_name(), "webrtc.offer");
    assert_eq!(
        method.body,
        WebrtcMethod::Offer(NotificationParams {
            room_id: Id::new(ROOM),
            data: OfferNotificationData {
                jsep: json("{\"type\":\"offer\"}"),
                from: Id::new(AGENT),
                tracks: vec![OfferedTrack { id: Id::new(1) }, OfferedTrack { id: Id::new(2) }],
            },
        })
    );
    let notification = Notification::from(method);
    assert!(notification.is_outbound());
    assert_eq!(
        notification.destination(),
        Topic::Agent(AgentTopic {
            kind: AgentTopicKind::In,
            agent_id: Id::new(TRACK),
            version: Version::V1,
        })
    );
    assert_eq!(
        notification.destination().to_string(),
        "agents/7945cf5b-2c73-4936-80cb-5cce27e9950d/in/signals.netology-group.services/api/v1"
    );
}

#[test]
fn an_answer_and_a_candidate_lose_the_recipient() {
    let answer: AnswerRequest = Request {
        room_id: Id::new(ROOM),
        data: AnswerRequestData {
            jsep: json("{}"),
            from: Id::new(AGENT),
            to: Id::new(TRACK),
        },
    };
    assert_eq!(
        AnswerNotificationData::from(answer.clone()),
        AnswerNotificationData {
            jsep: json("{}"),
            from: Id::new(AGENT),
        }
    );
    let method = WebrtcMethod::from(answer.clone());
    assert_eq!(method.method_name(), "webrtc.answer");
    assert_eq!(Method::from(answer).agent_id, Id::new(TRACK));
    let candidate: CandidateRequest = Request {
        room_id: Id::new(ROOM),
        data: CandidateRequestData {
            candidate: json("[1]"),
            from: Id::new(AGENT),
            to: Id::new(TRACK),
        },
    };
    assert_eq!(
        CandidateNotificationData::from(candidate.clone()),
        CandidateNotificationData {
            candidate: json("[1]"),
            from: Id::new(AGENT),
        }
    );
    let method = Method::from(candidate.clone());
    assert_eq!(method.agent_id, Id::new(TRACK));
    assert_eq!(method.body.method_name(), "webrtc.candidate");
    assert_eq!(
        OfferNotificationData::from(an_offer()).tracks,
        vec![OfferedTrack { id: Id::new(1) }, OfferedTrack { id: Id::new(2) }]
    );
    assert!(matches!(WebrtcMethod::from(candidate), WebrtcMethod::Candidate(_)));
}

#[test]
fn room_responses_report_the_room() {
    let resp = room::CreateResponse::new(&a_room());
    assert_eq!(resp.id, Id::new(ROOM));
    assert_eq!(resp.data.capacity, RoomCapacity::new(7));
    assert_eq!(resp.data.created_at, moment());
    let mut other = a_room();
    other.id = Id::new(5);
    let list = room::ListResponse::new(&[a_room(), other]);
    assert_eq!(list.0.len(), 2);
    assert_eq!(list.0[0], resp);
    assert_eq!(list.0[1].id, Id::new(5));
    assert_eq!(room::ListResponse::new(&[]).0.len(), 0);
}

#[test]
fn agent_responses_report_the_membership() {
    let resp = agent::CreateResponse::new(&a_membership());
    assert_eq!(resp.id, Id::new(AGENT));
    assert_eq!(resp.data.label, "alice");
    assert_eq!(resp.data.created_at, moment());
    let gone = agent::DeleteResponse::new(&a_membership());
    assert_eq!(gone.id, Id::new(AGENT));
    assert_eq!(gone.data.label, "alice");
    let list = agent::ListResponse::new(&[a_membership()]);
    assert_eq!(list.0, vec![resp]);
}

#[test]
fn track_responses_report_the_track() {
    let resp = track::CreateResponse::new(&a_track());
    assert_eq!(resp.id, Id::new(TRACK));
    assert_eq!(resp.data.owner_id, Id::new(AGENT));
    assert_eq!(resp.data.metadata, json("{\"kind\":\"video\"}"));
    assert_eq!(resp.data.metadata["kind"], Value::String("video".to_string()));
    assert_eq!(resp.copy(), resp);
    let gone = track::DeleteResponse::new(&a_track());
    assert_eq!(gone.id, Id::new(TRACK));
    assert_eq!(gone.copy(), gone);
    assert_eq!(track::CreateResponseData::new(&a_track()), resp.data);
    let list = track::ListResponse::new(&[a_track(), a_track()]);
    assert_eq!(list.0, vec![resp.clone(), resp]);
}

#[test]
fn new_rows_from_requests() {
    let req = room::CreateRequest {
        data: room::CreateRequestData {
            capacity: RoomCapacity::new(3),
        },
    };
    assert_eq!(
        NewRoom::from(req),
        NewRoom {
            label: None,
            capacity: RoomCapacity::new(3),
        }
    );
    let req = track::CreateRequest {
        room_id: Id::new(ROOM),
        data: track::CreateRequestData {
            owner_id: Id::new(AGENT),
            metadata: json("{}"),
        },
    };
    assert_eq!(
        NewTrack::from(req),
        NewTrack {
            owner_id: Id::new(AGENT),
            metadata: json("{}"),
        }
    );
    assert_eq!(Agent::new(Id::new(AGENT)).id, Id::new(AGENT));
}

#[test]
fn subscription_response_names_the_topic() {
    let topic = AppTopic {
        room_id: Id::new(ROOM),
        resource: ResourceKind::Agents,
    };
    assert_eq!(subscription::CreateResponse::new(topic).data.topic, topic);
}

#[test]
fn direct_responses_repeat_the_correlation_identifier() {
    let req = RoomsCreateRequest {
        payload: NewRoom {
            label: Some("hall".to_string()),
            capacity: RoomCapacity::new(7),
        },
        cid: "c-1".to_string(),
    };
    let resp = req.build_response(&a_room());
    assert_eq!(resp.cid, "c-1");
    assert_eq!(resp.payload.id, "058df470-73ea-43a4-b36c-e4615cad468e");
    assert_eq!(resp.payload.data.label, Some("hall".to_string()));
    assert_eq!(resp.payload.data.capacity, RoomCapacity::new(7));
    let resp = RoomsReadRequest {
        cid: "c-2".to_string(),
    }
    .build_response(&a_room());
    assert_eq!(resp.cid, "c-2");
    assert_eq!(resp.payload.id, "058df470-73ea-43a4-b36c-e4615cad468e");
    assert_eq!(resp.payload.data.label, Some("hall".to_string()));
    let mut other = a_room();
    other.id = Id::new(1);
    other.label = "attic".to_string();
    let resp = RoomsListRequest {
        cid: "c-3".to_string(),
    }
    .build_response(&vec![a_room(), other]);
    assert_eq!(resp.cid, "c-3");
    assert_eq!(resp.payload.len(), 2);
    assert_eq!(resp.payload[0].id, "058df470-73ea-43a4-b36c-e4615cad468e");
    assert_eq!(resp.payload[1].id, "00000000-0000-0000-0000-000000000001");
    assert_eq!(resp.payload[1].data.label, Some("attic".to_string()));
    assert_eq!(Message::RoomsListResponse(resp).tag(), "RoomsListResponse");
    assert_eq!(Message::Ping.tag(), "Ping");
    assert_eq!(Message::Pong.tag(), "Pong");
}

#[test]
fn a_ping_is_answered_with_a_pong() {
    let responses = PingController::call(&PingTopicKind::Ping, &Message::Ping);
    assert_eq!(
        responses,
        vec![Response {
            topic: Topic::Ping(PingTopicKind::Pong),
            qos: QoS::Level0,
            payload: Message::Pong,
        }]
    );
    let topic = Topic::Ping(PingTopicKind::Pong);
    let responses = MainController::new(&topic).call(&Message::Ping);
    assert_eq!(responses.len(), 1);
    assert_eq!(responses[0].topic, Topic::Ping(PingTopicKind::Ping));
    assert_eq!(responses[0].payload, Message::Pong);
}

#[test]
fn settings_start_empty() {
    assert_eq!(Settings::default().room, RoomSettings::default());
    assert_eq!(RoomSettings::default().max_capacity, RoomCapacity::new(0));
    assert_eq!(RoomCapacity::default().value(), 0);
    assert_eq!(RoomCapacity::new(200).value(), 200);
    assert!(RoomCapacity::new(8).exceeds(&RoomCapacity::new(7)));
    assert!(!RoomCapacity::new(7).exceeds(&RoomCapacity::new(7)));
}

#[test]
fn the_service_subscribes_to_three_filters() {
    let subscriptions = subscribe();
    assert_eq!(subscriptions.len(), 3);
    assert_eq!(subscriptions[0].filter, "ping");
    assert_eq!(subscriptions[0].qos, QoS::Level0);
    assert_eq!(
        subscriptions[1].filter,
        "agents/+/out/signals.netology-group.services/api/v1"
    );
    assert_eq!(subscriptions[1].qos, QoS::Level1);
    assert_eq!(subscriptions[2].filter, "agents/+/state/api/v1");
    assert_eq!(subscriptions[2].qos, QoS::Level1);
}

#[test]
fn an_answer_goes_out_on_the_reverse_topic() {
    let topic = Topic::parse(
        "agents/e19c94cf-53eb-4048-9c94-7ae74ff6d912/out/signals.netology-group.services/api/v1",
    )
    .unwrap();
    let publication = handle_message(&topic, Some("{}".to_string())).unwrap();
    assert_eq!(
        publication.topic.to_string(),
        "agents/e19c94cf-53eb-4048-9c94-7ae74ff6d912/in/signals.netology-group.services/api/v1"
    );
    assert_eq!(publication.qos, QoS::Level1);
    assert_eq!(publication.payload, "{}");
    assert_eq!(handle_message(&topic, None), None);
    let state = Topic::parse("agents/e19c94cf-53eb-4048-9c94-7ae74ff6d912/state/api/v1").unwrap();
    assert_eq!(handle_message(&state, Some("{}".to_string())), None);
    assert_eq!(
        handle_message(&Topic::Ping(PingTopicKind::Ping), Some("x".to_string())),
        Some(Publication {
            topic: Topic::Ping(PingTopicKind::Pong),
            qos: QoS::Level1,
            payload: "x".to_string(),
        })
    );
}

#[test]
fn a_notification_is_published_on_its_destination() {
    let event = Event::new(Id::new(ROOM), track::DeleteResponse::new(&a_track()));
    let notification = Notification::Event(EventKind::TrackDelete(event));
    let publication = notify(&notification, "{\"method\":\"event\"}".to_string());
    assert_eq!(
        publication,
        Publication {
            topic: Topic::App(AppTopic {
                room_id: Id::new(ROOM),
                resource: ResourceKind::Tracks,
            }),
            qos: QoS::Level1,
            payload: "{\"method\":\"event\"}".to_string(),
        }
    );
}

#[test]
fn options_for_the_broker() {
    let options = signals::build_options(
        "broker.example.org",
        "signals-1".to_string(),
        "postgres://localhost/signals".to_string(),
    );
    assert_eq!(options.mqtt.broker, "broker.example.org:1883");
    assert_eq!(options.mqtt.client_id, "signals-1");
    assert_eq!(options.mqtt.keep_alive, 5);
    assert_eq!(options.mqtt.reconnect, 3);
    assert_eq!(options.database_url, "postgres://localhost/signals");
    assert_eq!(signals::MQTT_PORT, "1883");
}

#[test]
fn capacity_in_the_store() {
    assert_eq!(RoomCapacity::new(0).to_sql(), 0);
    assert_eq!(RoomCapacity::new(255).to_sql(), 255);
    assert_eq!(RoomCapacity::from_sql(0), RoomCapacity::new(0));
    assert_eq!(RoomCapacity::from_sql(17), RoomCapacity::new(17));
    assert_eq!(RoomCapacity::from_sql(255), RoomCapacity::new(255));
    assert_eq!(RoomCapacity::from_sql(256), RoomCapacity::new(0));
    assert_eq!(RoomCapacity::from_sql(257), RoomCapacity::new(1));
    assert_eq!(RoomCapacity::from_sql(-1), RoomCapacity::new(255));
    assert_eq!(RoomCapacity::from_sql(i16::MIN), RoomCapacity::new(0));
}

#[test]
fn capacity_as_text() {
    assert_eq!(RoomCapacity::new(0).to_string(), "0");
    assert_eq!(RoomCapacity::new(7).to_string(), "7");
    assert_eq!(RoomCapacity::new(10).to_string(), "10");
    assert_eq!(RoomCapacity::new(99).to_string(), "99");
    assert_eq!(RoomCapacity::new(100).to_string(), "100");
    assert_eq!(RoomCapacity::new(205).to_string(), "205");
    assert_eq!(RoomCapacity::new(255).to_string(), "255");
    for n in 0..=255u8 {
        assert_eq!(RoomCapacity::new(n).to_string(), format!("{}", n));
    }
}

#[test]
fn deserialize_envelope() {
    let json = r#"{
            "sub": {
                "account_id": "31517b3d-5a14-4a14-a6c5-2ba63f7375d3",
                "agent_id": "85c36f15-5021-4ab8-91a8-0f972cdb6d3a"
            },
            "msg": "ping"
        }"#;

    let value: Value = serde_json::from_str(json).unwrap();
    let envelope = Envelope::new(
        EnvelopeSubject {
            account_id: Id::parse(value["sub"]["account_id"].as_str().unwrap()).unwrap(),
            agent_id: Id::parse(value["sub"]["agent_id"].as_str().unwrap()).unwrap(),
        },
        EnvelopeMessage::new(value["msg"].as_str().unwrap().to_string()),
    );
    let expected = Envelope {
        sub: EnvelopeSubject {
            account_id: Id::new(
                uuid::Uuid::parse_str("31517b3d-5a14-4a14-a6c5-2ba63f7375d3")
                    .unwrap()
                    .as_u128(),
            ),
            agent_id: Id::new(
                uuid::Uuid::parse_str("85c36f15-5021-4ab8-91a8-0f972cdb6d3a")
                    .unwrap()
                    .as_u128(),
            ),
        },
        msg: EnvelopeMessage("ping".to_string()),
    };

    assert_eq!(envelope, expected);
}

#[test]
fn the_rooms_controller_says_what_to_ask_of_the_store() {
    let read = || RoomsReadRequest {
        cid: "c-9".to_string(),
    };
    let create = || RoomsCreateRequest {
        payload: NewRoom {
            label: Some("hall".to_string()),
            capacity: RoomCapacity::new(2),
        },
        cid: "c-8".to_string(),
    };
    assert_eq!(
        RoomsController::call(None, Message::RoomsCreateRequest(create())),
        Ok(Work::Create(create()))
    );
    assert_eq!(
        RoomsController::call(
            None,
            Message::RoomsListRequest(RoomsListRequest {
                cid: "c-7".to_string()
            })
        ),
        Ok(Work::List(RoomsListRequest {
            cid: "c-7".to_string()
        }))
    );
    assert_eq!(
        RoomsController::call(None, Message::RoomsReadRequest(read())),
        Err(signals::rpc::error::Error::BadRequest)
    );
    assert_eq!(
        RoomsController::call(None, Message::Ping),
        Err(signals::rpc::error::Error::BadRequest)
    );
    assert_eq!(
        RoomsController::call(Some(Id::new(ROOM)), Message::RoomsReadRequest(read())),
        Ok(Work::Read(Id::new(ROOM), read()))
    );
    assert_eq!(
        RoomsController::call(Some(Id::new(ROOM)), Message::RoomsUpdateRequest(create())),
        Ok(Work::Update(Id::new(ROOM), create()))
    );
    assert_eq!(
        RoomsController::call(Some(Id::new(ROOM)), Message::RoomsDeleteRequest(read())),
        Ok(Work::Delete(Id::new(ROOM), read()))
    );
}

#[test]
fn the_rooms_controller_answers_on_the_reverse_topic() {
    let topic = AgentTopic {
        kind: AgentTopicKind::Out,
        agent_id: Id::new(AGENT),
        version: Version::V1,
    };
    let reverse = Topic::Agent(AgentTopic::new_in(Id::new(AGENT)));
    let read = || RoomsReadRequest {
        cid: "c-9".to_string(),
    };
    let create = || RoomsCreateRequest {
        payload: NewRoom {
            label: None,
            capacity: RoomCapacity::new(2),
        },
        cid: "c-8".to_string(),
    };
    let responses = RoomsController::read(&topic, read(), &a_room());
    assert_eq!(responses.len(), 1);
    assert_eq!(responses[0].topic, reverse);
    assert_eq!(responses[0].qos, QoS::Level1);
    assert_eq!(
        responses[0].payload,
        Message::RoomsReadResponse(read().build_response(&a_room()))
    );
    let responses = RoomsController::create(&topic, create(), &a_room());
    assert_eq!(responses.len(), 1);
    assert_eq!(responses[0].topic, reverse);
    assert_eq!(
        responses[0].payload,
        Message::RoomsCreateResponse(create().build_response(&a_room()))
    );
    let responses = RoomsController::update(&topic, create(), &a_room());
    assert_eq!(
        responses[0].payload,
        Message::RoomsUpdateResponse(create().build_response(&a_room()))
    );
    assert_eq!(responses[0].payload.tag(), "RoomsUpdateResponse");
    let responses = RoomsController::delete(&topic, read(), &a_room());
    assert_eq!(
        responses[0].payload,
        Message::RoomsDeleteResponse(read().build_response(&a_room()))
    );
    assert_eq!(responses[0].qos, QoS::Level1);
    let list = || RoomsListRequest {
        cid: "c-7".to_string(),
    };
    let responses = RoomsController::list(&topic, list(), &vec![a_room(), a_room()]);
    assert_eq!(responses.len(), 1);
    assert_eq!(responses[0].topic, reverse);
    assert_eq!(
        responses[0].payload,
        Message::RoomsListResponse(list().build_response(&vec![a_room(), a_room()]))
    );
}
