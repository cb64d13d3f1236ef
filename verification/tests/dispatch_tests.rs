use dummycloud::codec::UDPCodec;
use dummycloud::dispatch::{
    receive, receive_any, respond, respond_at, route, Inbound, TimeError, URL_LIFETIME_SECS,
};
use dummycloud::json::JsonValue;
use dummycloud::payload::{MessagePayload, ResponsePayload};
use serde_json::{Number, Value};

const CLOUD_KEY: &str = "0123456789abcdef";

fn request(method: &str, id: u32) -> MessagePayload {
    MessagePayload { method: method.to_string(), partner_id: None, id, params: Value::Null }
}

fn text(s: &str) -> JsonValue {
    JsonValue::String(s.to_string())
}

fn object(members: Vec<(&str, JsonValue)>) -> JsonValue {
    JsonValue::Object(members.into_iter().map(|(name, value)| (name.to_string(), value)).collect())
}

fn endpoint() -> JsonValue {
    object(vec![("ip", text("130.83.47.181")), ("port", JsonValue::Number(8053))])
}

fn to_serde(value: &JsonValue) -> Value {
    match value {
        JsonValue::Null => Value::Null,
        JsonValue::Bool(b) => Value::Bool(*b),
        JsonValue::Number(n) => Value::Number(Number::from(*n)),
        JsonValue::String(s) => Value::String(s.clone()),
        JsonValue::Array(items) => Value::Array(items.iter().map(to_serde).collect()),
        JsonValue::Object(members) => {
            let mut map = serde_json::Map::new();
            for (name, member) in members {
                map.insert(name.clone(), to_serde(member));
            }
            Value::Object(map)
        }
    }
}

fn serialize(response: &ResponsePayload) -> Vec<u8> {
    let mut map = serde_json::Map::new();
    map.insert("id".to_string(), Value::Number(Number::from(response.id())));
    map.insert("result".to_string(), to_serde(response.result()));
    serde_json::to_vec(&Value::Object(map)).unwrap()
}

fn parse(plaintext: &str) -> Option<MessagePayload> {
    let value: Value = serde_json::from_str(plaintext).ok()?;
    let method = value.get("method")?.as_str()?.to_string();
    let id = u32::try_from(value.get("id")?.as_u64()?).ok()?;
    let params = value.get("params")?.clone();
    Some(MessagePayload { method, partner_id: None, id, params })
}

fn device_frame(codec: &UDPCodec, plaintext: &str, device_id: u32, stamp: u32) -> Vec<u8> {
    codec.encode_frame(plaintext.as_bytes(), device_id, stamp).unwrap()
}

fn serve(codec: &UDPCodec, datagram: &[u8], now: u64) -> Option<Vec<u8>> {
    match receive(codec, datagram) {
        Inbound::Handshake => Some(dummycloud::timesync::timesync_packet(now)[..].to_vec()),
        Inbound::Echo(bytes) => Some(bytes),
        Inbound::Request { plaintext, device_id } => {
            let message = parse(&plaintext)?;
            let response = route(&message, now)?;
            Some(codec.encode_frame(&serialize(&response), device_id, now as u32).unwrap())
        }
    }
}

fn reply_text(codec: &UDPCodec, reply: &[u8]) -> String {
    codec.decode_response(&reply[..32], &reply[32..]).unwrap()
}

#[test]
fn hello_probe_gets_the_handshake() {
    let codec = UDPCodec::new(CLOUD_KEY);
    let mut hello = vec![0x21, 0x31, 0x00, 0x20];
    hello.extend_from_slice(&[0xff; 8]);
    hello.extend_from_slice(&[0x00; 4]);
    hello.extend_from_slice(&[0xff; 16]);
    assert_eq!(receive(&codec, &hello), Inbound::Handshake);
    let reply = serve(&codec, &hello, 1_600_000_000).unwrap();
    assert_eq!(reply.len(), 32);
    assert_eq!(&reply[12..16], &1_600_000_000u32.to_be_bytes());
    assert_ne!(reply, hello);
}

#[test]
fn zero_stamp_with_undecodable_body_gets_the_handshake() {
    let codec = UDPCodec::new(CLOUD_KEY);
    let mut datagram = vec![0u8; 32];
    datagram.extend_from_slice(b"not a ciphertext");
    assert_eq!(receive(&codec, &datagram), Inbound::Handshake);
    let foreign = UDPCodec::new("another key").encode_frame(b"{}", 5, 0).unwrap();
    assert_eq!(receive(&codec, &foreign), Inbound::Handshake);
}

#[test]
fn nonzero_stamp_with_undecodable_body_is_echoed() {
    let codec = UDPCodec::new(CLOUD_KEY);
    let mut bare = vec![0x21, 0x31, 0x00, 0x20];
    bare.extend_from_slice(&[0xff; 8]);
    bare.extend_from_slice(&[0x00, 0x00, 0x00, 0x01]);
    bare.extend_from_slice(&[0xff; 16]);
    assert_eq!(receive(&codec, &bare), Inbound::Echo(bare.clone()));
    assert_eq!(serve(&codec, &bare, 1_600_000_000), Some(bare));
    let foreign = UDPCodec::new("another key").encode_frame(b"{}", 5, 0x0100_0000).unwrap();
    assert_eq!(receive(&codec, &foreign), Inbound::Echo(foreign.clone()));
}

#[test]
fn stamp_is_read_from_bytes_12_to_15() {
    let codec = UDPCodec::new(CLOUD_KEY);
    for at in 0..32usize {
        let mut datagram = vec![0u8; 32];
        datagram[at] = 1;
        let expected =
            if (12..16).contains(&at) { Inbound::Echo(datagram.clone()) } else { Inbound::Handshake };
        assert_eq!(receive(&codec, &datagram), expected, "byte {}", at);
    }
}

#[test]
fn decodable_frame_is_a_request_whatever_its_stamp() {
    let codec = UDPCodec::new(CLOUD_KEY);
    let plaintext = "{\"id\":3,\"method\":\"props\",\"params\":[]}";
    for stamp in [0u32, 1, 0xffff_ffff] {
        let frame = device_frame(&codec, plaintext, 0x0a0b_0c0d, stamp);
        assert_eq!(
            receive(&codec, &frame),
            Inbound::Request { plaintext: plaintext.to_string(), device_id: 0x0a0b_0c0d }
        );
    }
}

#[test]
fn plaintext_that_is_not_utf8_counts_as_undecodable() {
    let codec = UDPCodec::new(CLOUD_KEY);
    let frame = codec.encode_frame(&[0xff, 0xfe], 1, 0).unwrap();
    assert_eq!(receive(&codec, &frame), Inbound::Handshake);
    let frame = codec.encode_frame(&[0xff, 0xfe], 1, 9).unwrap();
    assert_eq!(receive(&codec, &frame), Inbound::Echo(frame.clone()));
}

#[test]
fn props_is_answered_ok() {
    let response = route(&request("props", 7), 0).unwrap();
    assert_eq!(response, ResponsePayload::new(7, text("ok")));
    assert_eq!(serialize(&response), b"{\"id\":7,\"result\":\"ok\"}".to_vec());
}

#[test]
fn events_are_answered_ok() {
    for method in ["event.status", "event.low_power_back"] {
        let response = route(&request(method, 11), 5).unwrap();
        assert_eq!(response.id(), 11);
        assert_eq!(response.result(), &text("ok"));
    }
}

#[test]
fn otc_info_names_the_relay() {
    let response = route(&request("_otc.info", 1), 0).unwrap();
    let expected = object(vec![
        ("otc_list", JsonValue::Array(vec![endpoint()])),
        (
            "otc_test",
            object(vec![
                ("list", JsonValue::Array(vec![endpoint()])),
                ("interval", JsonValue::Number(1800)),
                ("firsttest", JsonValue::Number(1193)),
            ]),
        ),
    ]);
    assert_eq!(response, ResponsePayload::new(1, expected));
    assert_eq!(
        String::from_utf8(serialize(&response)).unwrap(),
        "{\"id\":1,\"result\":{\"otc_list\":[{\"ip\":\"130.83.47.181\",\"port\":8053}],\
         \"otc_test\":{\"firsttest\":1193,\"interval\":1800,\
         \"list\":[{\"ip\":\"130.83.47.181\",\"port\":8053}]}}}"
    );
}

#[test]
fn presigned_url_expires_in_an_hour() {
    assert_eq!(URL_LIFETIME_SECS, 3600);
    let response = route(&request("_sync.gen_presigned_url", 2), 1_600_000_000).unwrap();
    let expected = object(vec![(
        "",
        object(vec![
            ("url", text("http://us.ott.io.mi.com/robomap")),
            ("obj_name", text("something")),
            ("method", text("PUT")),
            ("expires_time", JsonValue::Number(1_600_003_600)),
            ("ok", JsonValue::Bool(true)),
            ("pwd", text("password")),
        ]),
    )]);
    assert_eq!(response, ResponsePayload::new(2, expected));
}

#[test]
fn presigned_url_at_the_latest_time() {
    let response = route(&request("_sync.gen_presigned_url", 2), u64::MAX - 3600).unwrap();
    match response.result() {
        JsonValue::Object(outer) => match &outer[0].1 {
            JsonValue::Object(slot) => {
                assert_eq!(slot[3], ("expires_time".to_string(), JsonValue::Number(u64::MAX)))
            }
            other => panic!("{:?}", other),
        },
        other => panic!("{:?}", other),
    }
}

#[test]
fn room_urls_are_four_in_order() {
    let response = route(&request("_sync.batch_gen_room_up_url", 9), 0).unwrap();
    let expected = JsonValue::Array(vec![
        text("http://us.ott.io.mi.com/robomap/1"),
        text("http://us.ott.io.mi.com/robomap/2"),
        text("http://us.ott.io.mi.com/robomap/3"),
        text("http://us.ott.io.mi.com/robomap/4"),
    ]);
    assert_eq!(response, ResponsePayload::new(9, expected));
}

#[test]
fn unknown_method_gets_no_answer() {
    for method in ["", "Props", "props ", "prop", "_otc.info2", "event", "get_status", "PROPS"] {
        assert_eq!(route(&request(method, 1), 0), None, "{}", method);
        assert_eq!(respond(&request(method, 1)), Ok(None), "{}", method);
    }
}

#[test]
fn every_answer_echoes_the_token() {
    let methods = [
        "_otc.info",
        "props",
        "event.status",
        "event.low_power_back",
        "_sync.gen_presigned_url",
        "_sync.batch_gen_room_up_url",
    ];
    for method in methods {
        for id in [0u32, 1, 4_000_000_000, u32::MAX] {
            assert_eq!(route(&request(method, id), 77).unwrap().id(), id);
            assert_eq!(respond(&request(method, id)).unwrap().unwrap().id(), id);
        }
    }
}

#[test]
fn respond_agrees_with_route_where_time_does_not_matter() {
    for method in ["_otc.info", "props", "_sync.batch_gen_room_up_url"] {
        assert_eq!(respond(&request(method, 5)), Ok(route(&request(method, 5), 123)));
    }
}

#[test]
fn respond_reads_the_clock_for_the_presigned_url() {
    let before = dummycloud::clock::unix_time().unwrap();
    let response = respond(&request("_sync.gen_presigned_url", 5)).unwrap().unwrap();
    let after = dummycloud::clock::unix_time().unwrap();
    let matched = (before..=after)
        .any(|now| route(&request("_sync.gen_presigned_url", 5), now).as_ref() == Some(&response));
    assert!(matched);
}

#[test]
fn props_frame_is_answered_end_to_end() {
    let codec = UDPCodec::new(CLOUD_KEY);
    let frame = device_frame(
        &codec,
        "{\"id\":123456,\"method\":\"props\",\"params\":{\"ota_state\":\"idle\"}}",
        0x0441_5c2e,
        0x0000_0e10,
    );
    let reply = serve(&codec, &frame, 1_600_000_000).unwrap();
    assert_eq!(reply_text(&codec, &reply), "{\"id\":123456,\"result\":\"ok\"}");
    assert_eq!(&reply[..2], &[0x21, 0x31]);
    assert_eq!(&reply[8..12], &[0x04, 0x41, 0x5c, 0x2e]);
    assert_eq!(&reply[12..16], &1_600_000_000u32.to_be_bytes());
}

#[test]
fn room_urls_frame_is_answered_end_to_end() {
    let codec = UDPCodec::new(CLOUD_KEY);
    let frame = device_frame(
        &codec,
        "{\"id\":5,\"method\":\"_sync.batch_gen_room_up_url\",\"params\":[]}",
        1,
        2,
    );
    let reply = serve(&codec, &frame, 1_600_000_000).unwrap();
    assert_eq!(
        reply_text(&codec, &reply),
        "{\"id\":5,\"result\":[\"http://us.ott.io.mi.com/robomap/1\",\
         \"http://us.ott.io.mi.com/robomap/2\",\"http://us.ott.io.mi.com/robomap/3\",\
         \"http://us.ott.io.mi.com/robomap/4\"]}"
    );
}

#[test]
fn unknown_method_frame_gets_no_packet() {
    let codec = UDPCodec::new(CLOUD_KEY);
    let frame =
        device_frame(&codec, "{\"id\":5,\"method\":\"get_status\",\"params\":[]}", 1, 2);
    assert_eq!(serve(&codec, &frame, 1_600_000_000), None);
}

#[test]
fn unparsable_plaintext_gets_no_packet() {
    let codec = UDPCodec::new(CLOUD_KEY);
    for plaintext in ["", "not json", "{\"id\":5}", "{\"id\":-1,\"method\":\"props\",\"params\":[]}"]
    {
        let frame = device_frame(&codec, plaintext, 1, 2);
        assert_eq!(serve(&codec, &frame, 1_600_000_000), None, "{}", plaintext);
    }
}

#[test]
fn datagram_shorter_than_a_header_is_nothing() {
    let codec = UDPCodec::new(CLOUD_KEY);
    for len in 0..32usize {
        assert_eq!(receive_any(&codec, &vec![0u8; len]), None, "{} bytes", len);
        assert_eq!(receive_any(&codec, &vec![0xffu8; len]), None, "{} bytes", len);
    }
}

#[test]
fn receive_any_agrees_with_receive_from_32_bytes_on() {
    let codec = UDPCodec::new(CLOUD_KEY);
    let zero = vec![0u8; 32];
    assert_eq!(receive_any(&codec, &zero), Some(Inbound::Handshake));
    let mut stamped = vec![0u8; 33];
    stamped[15] = 1;
    assert_eq!(receive_any(&codec, &stamped), Some(Inbound::Echo(stamped.clone())));
    let plaintext = "{\"id\":3,\"method\":\"props\",\"params\":[]}";
    let frame = device_frame(&codec, plaintext, 77, 5);
    assert_eq!(receive_any(&codec, &frame), Some(receive(&codec, &frame)));
    assert_eq!(
        receive_any(&codec, &frame),
        Some(Inbound::Request { plaintext: plaintext.to_string(), device_id: 77 })
    );
}

#[test]
fn presigned_url_needs_a_reading() {
    let presigned = request("_sync.gen_presigned_url", 6);
    assert_eq!(respond_at(&presigned, None), Err(TimeError::BeforeEpoch));
}

#[test]
fn presigned_url_needs_room_for_the_expiry() {
    let presigned = request("_sync.gen_presigned_url", 6);
    assert_eq!(respond_at(&presigned, Some(u64::MAX)), Err(TimeError::OutOfRange));
    assert_eq!(respond_at(&presigned, Some(u64::MAX - 3599)), Err(TimeError::OutOfRange));
    assert_eq!(
        respond_at(&presigned, Some(u64::MAX - 3600)),
        Ok(route(&presigned, u64::MAX - 3600))
    );
}

#[test]
fn respond_at_answers_as_route_does_at_the_reading() {
    let presigned = request("_sync.gen_presigned_url", 6);
    for now in [0u64, 1, 1_600_000_000] {
        let answer = respond_at(&presigned, Some(now)).unwrap().unwrap();
        assert_eq!(Some(answer), route(&presigned, now));
    }
    assert_ne!(respond_at(&presigned, Some(1)), respond_at(&presigned, Some(2)));
}

#[test]
fn respond_at_ignores_the_reading_for_other_methods() {
    let methods =
        ["_otc.info", "props", "event.status", "event.low_power_back", "_sync.batch_gen_room_up_url"];
    for method in methods {
        let expected = Ok(route(&request(method, 8), 0));
        assert!(expected.as_ref().unwrap().is_some());
        for reading in [None, Some(0), Some(1_600_000_000), Some(u64::MAX)] {
            assert_eq!(respond_at(&request(method, 8), reading), expected, "{}", method);
        }
    }
    for reading in [None, Some(0), Some(u64::MAX)] {
        assert_eq!(respond_at(&request("get_status", 8), reading), Ok(None));
    }
}
