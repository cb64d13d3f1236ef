//! What the cloud does with a datagram: the policy for frames that do not
//! decode, and the table of fixed replies for those that do.

use crate::buffer::slice_get_u32;
use crate::clock::unix_time;
use crate::codec::{decoded_text, UDPCodec};
use crate::header::{header_of, HEADER_LEN};
use crate::json::{item_views, member_views, JsonValue, JsonView};
use crate::payload::{MessagePayload, ResponsePayload};
use vstd::prelude::*;
use vstd::slice::{slice_subrange, slice_to_vec};

verus! {

/// Seconds for which a pre-signed upload URL stays valid.
pub const URL_LIFETIME_SECS: u64 = 3600;

/// What a datagram turned out to be.
#[derive(Debug, PartialEq, Eq)]
pub enum Inbound {
    /// It does not decode and its stamp is zero: a device makes first
    /// contact, and is owed the handshake packet.
    Handshake,
    /// It does not decode and its stamp is not zero: the bytes to send back,
    /// which are the datagram's own.
    Echo(Vec<u8>),
    /// It decodes: the plaintext of a request, and the device identifier
    /// that the reply's header must carry.
    Request { plaintext: String, device_id: u32 },
}

/// Why a request got no answer although its method is known.
#[derive(Clone, Copy, Debug, PartialEq, Eq)]
pub enum TimeError {
    /// The system clock stands before the Unix epoch.
    BeforeEpoch,
    /// The system clock stands so late that the expiry time has no 64-bit
    /// value.
    OutOfRange,
}

/// One relay endpoint.
pub open spec fn otc_endpoint_view() -> JsonView {
    JsonView::Object(
        seq![("ip"@, JsonView::String("130.83.47.181"@)), ("port"@, JsonView::Number(8053))],
    )
}

/// The schedule on which a device tests its relay endpoints.
pub open spec fn otc_test_view() -> JsonView {
    JsonView::Object(
        seq![
            ("list"@, JsonView::Array(seq![otc_endpoint_view()])),
            ("interval"@, JsonView::Number(1800)),
            ("firsttest"@, JsonView::Number(1193)),
        ],
    )
}

/// The result of `_otc.info`: the relay endpoints and their test schedule.
pub open spec fn otc_info_view() -> JsonView {
    JsonView::Object(
        seq![
            ("otc_list"@, JsonView::Array(seq![otc_endpoint_view()])),
            ("otc_test"@, otc_test_view()),
        ],
    )
}

/// The upload slot that `_sync.gen_presigned_url` hands out at the time
/// `epoch_secs`: it expires an hour later.
pub open spec fn upload_slot_view(epoch_secs: u64) -> JsonView
    recommends
        epoch_secs + URL_LIFETIME_SECS <= u64::MAX,
{
    JsonView::Object(
        seq![
            ("url"@, JsonView::String("http://us.ott.io.mi.com/robomap"@)),
            ("obj_name"@, JsonView::String("something"@)),
            ("method"@, JsonView::String("PUT"@)),
            ("expires_time"@, JsonView::Number((epoch_secs + URL_LIFETIME_SECS) as u64)),
            ("ok"@, JsonView::Bool(true)),
            ("pwd"@, JsonView::String("password"@)),
        ],
    )
}

/// The result of `_sync.gen_presigned_url`: one upload slot under the empty
/// name.
pub open spec fn presigned_url_view(epoch_secs: u64) -> JsonView
    recommends
        epoch_secs + URL_LIFETIME_SECS <= u64::MAX,
{
    JsonView::Object(seq![(""@, upload_slot_view(epoch_secs))])
}

/// The result of `_sync.batch_gen_room_up_url`: four upload URLs.
pub open spec fn room_urls_view() -> JsonView {
    JsonView::Array(
        seq![
            JsonView::String("http://us.ott.io.mi.com/robomap/1"@),
            JsonView::String("http://us.ott.io.mi.com/robomap/2"@),
            JsonView::String("http://us.ott.io.mi.com/robomap/3"@),
            JsonView::String("http://us.ott.io.mi.com/robomap/4"@),
        ],
    )
}

/// The routing table: the result for a method at the time `epoch_secs`, in
/// seconds since the Unix epoch, or none for a method that the table does not
/// hold. Names match exactly.
pub open spec fn routed_result(method: Seq<char>, epoch_secs: u64) -> Option<JsonView> {
    if method == "_otc.info"@ {
        Some(otc_info_view())
    } else if method == "props"@ || method == "event.status"@ || method
        == "event.low_power_back"@ {
        Some(JsonView::String("ok"@))
    } else if method == "_sync.gen_presigned_url"@ {
        Some(presigned_url_view(epoch_secs))
    } else if method == "_sync.batch_gen_room_up_url"@ {
        Some(room_urls_view())
    } else {
        None
    }
}

/// Whether `method` is exactly `name`.
fn is_named(method: &String, name: &str) -> (same: bool)
    ensures
        same == (method@ == name@),
{
    let other = String::from_str(name);
    *method == other
}

/// An object's member.
fn member(name: &str, value: JsonValue) -> (named: (String, JsonValue))
    ensures
        named.0@ == name@,
        named.1 == value,
{
    (String::from_str(name), value)
}

fn otc_endpoint() -> (value: JsonValue)
    ensures
        value@ == otc_endpoint_view(),
{
    let mut members: Vec<(String, JsonValue)> = Vec::new();
    members.push(member("ip", JsonValue::string("130.83.47.181")));
    members.push(member("port", JsonValue::Number(8053)));
    proof {
        assert(member_views(members@) =~= seq![
            ("ip"@, JsonView::String("130.83.47.181"@)),
            ("port"@, JsonView::Number(8053)),
        ]);
    }
    JsonValue::object(members)
}

fn otc_endpoints() -> (value: JsonValue)
    ensures
        value@ == JsonView::Array(seq![otc_endpoint_view()]),
{
    let mut items: Vec<JsonValue> = Vec::new();
    items.push(otc_endpoint());
    proof {
        assert(item_views(items@) =~= seq![otc_endpoint_view()]);
    }
    JsonValue::array(items)
}

fn otc_test() -> (value: JsonValue)
    ensures
        value@ == otc_test_view(),
{
    let mut members: Vec<(String, JsonValue)> = Vec::new();
    members.push(member("list", otc_endpoints()));
    members.push(member("interval", JsonValue::Number(1800)));
    members.push(member("firsttest", JsonValue::Number(1193)));
    proof {
        assert(member_views(members@) =~= seq![
            ("list"@, JsonView::Array(seq![otc_endpoint_view()])),
            ("interval"@, JsonView::Number(1800)),
            ("firsttest"@, JsonView::Number(1193)),
        ]);
    }
    JsonValue::object(members)
}

fn otc_info() -> (value: JsonValue)
    ensures
        value@ == otc_info_view(),
{
    let mut members: Vec<(String, JsonValue)> = Vec::new();
    members.push(member("otc_list", otc_endpoints()));
    members.push(member("otc_test", otc_test()));
    proof {
        assert(member_views(members@) =~= seq![
            ("otc_list"@, JsonView::Array(seq![otc_endpoint_view()])),
            ("otc_test"@, otc_test_view()),
        ]);
    }
    JsonValue::object(members)
}

fn upload_slot(epoch_secs: u64) -> (value: JsonValue)
    requires
        epoch_secs <= u64::MAX - URL_LIFETIME_SECS,
    ensures
        value@ == upload_slot_view(epoch_secs),
{
    let expires_time: u64 = epoch_secs + URL_LIFETIME_SECS;
    let mut members: Vec<(String, JsonValue)> = Vec::new();
    members.push(member("url", JsonValue::string("http://us.ott.io.mi.com/robomap")));
    members.push(member("obj_name", JsonValue::string("something")));
    members.push(member("method", JsonValue::string("PUT")));
    members.push(member("expires_time", JsonValue::Number(expires_time)));
    members.push(member("ok", JsonValue::Bool(true)));
    members.push(member("pwd", JsonValue::string("password")));
    proof {
        assert(member_views(members@) =~= seq![
            ("url"@, JsonView::String("http://us.ott.io.mi.com/robomap"@)),
            ("obj_name"@, JsonView::String("something"@)),
            ("method"@, JsonView::String("PUT"@)),
            ("expires_time"@, JsonView::Number((epoch_secs + URL_LIFETIME_SECS) as u64)),
            ("ok"@, JsonView::Bool(true)),
            ("pwd"@, JsonView::String("password"@)),
        ]);
    }
    JsonValue::object(members)
}

fn presigned_url(epoch_secs: u64) -> (value: JsonValue)
    requires
        epoch_secs <= u64::MAX - URL_LIFETIME_SECS,
    ensures
        value@ == presigned_url_view(epoch_secs),
{
    let mut members: Vec<(String, JsonValue)> = Vec::new();
    members.push(member("", upload_slot(epoch_secs)));
    proof {
        assert(member_views(members@) =~= seq![(""@, upload_slot_view(epoch_secs))]);
    }
    JsonValue::object(members)
}

fn room_urls() -> (value: JsonValue)
    ensures
        value@ == room_urls_view(),
{
    let mut items: Vec<JsonValue> = Vec::new();
    items.push(JsonValue::string("http://us.ott.io.mi.com/robomap/1"));
    items.push(JsonValue::string("http://us.ott.io.mi.com/robomap/2"));
    items.push(JsonValue::string("http://us.ott.io.mi.com/robomap/3"));
    items.push(JsonValue::string("http://us.ott.io.mi.com/robomap/4"));
    proof {
        assert(item_views(items@) =~= seq![
            JsonView::String("http://us.ott.io.mi.com/robomap/1"@),
            JsonView::String("http://us.ott.io.mi.com/robomap/2"@),
            JsonView::String("http://us.ott.io.mi.com/robomap/3"@),
            JsonView::String("http://us.ott.io.mi.com/robomap/4"@),
        ]);
    }
    JsonValue::array(items)
}

/// Whether `inbound` is what the datagram is under the cloud key.
///
/// Where the frame decodes to text, that text is the request, with the
/// header's device identifier. Where it does not, the stamp decides: zero
/// calls for the handshake, anything else for the datagram sent back as it
/// came.
pub open spec fn is_received(cloud_key: Seq<u8>, datagram: Seq<u8>, inbound: Inbound) -> bool
    recommends
        datagram.len() >= HEADER_LEN,
{
    let text = decoded_text(
        cloud_key,
        datagram.subrange(0, 32),
        datagram.subrange(32, datagram.len() as int),
    );
    match inbound {
        Inbound::Request { plaintext, device_id } => {
            &&& text == Some(plaintext@)
            &&& device_id == header_of(datagram).device_id
        },
        Inbound::Handshake => {
            &&& text is None
            &&& header_of(datagram).stamp == 0
        },
        Inbound::Echo(bytes) => {
            &&& text is None
            &&& header_of(datagram).stamp != 0
            &&& bytes@ == datagram
        },
    }
}

/// Looks at a datagram of a header and, maybe, a body.
///
/// Where the frame decodes to text, that text is the request. Where it does
/// not, the stamp decides: zero calls for the handshake, anything else for
/// the datagram sent back as it came.
pub fn receive(codec: &UDPCodec, datagram: &[u8]) -> (inbound: Inbound)
    requires
        datagram@.len() >= HEADER_LEN,
    ensures
        is_received(codec@, datagram@, inbound),
{
    let header = slice_subrange(datagram, 0, HEADER_LEN);
    let encrypted_body = slice_subrange(datagram, HEADER_LEN, datagram.len());
    let stamp: u32 = slice_get_u32(slice_subrange(header, 12, HEADER_LEN));
    let device_id: u32 = slice_get_u32(slice_subrange(header, 8, HEADER_LEN));
    match codec.decode_response(header, encrypted_body) {
        Some(plaintext) => Inbound::Request { plaintext, device_id },
        None => {
            if stamp == 0 {
                Inbound::Handshake
            } else {
                Inbound::Echo(slice_to_vec(datagram))
            }
        },
    }
}

/// Looks at a datagram of any length: one that is too short to hold a
/// header is nothing at all, and every other is what `receive` finds.
pub fn receive_any(codec: &UDPCodec, datagram: &[u8]) -> (inbound: Option<Inbound>)
    ensures
        match inbound {
            Some(found) => datagram@.len() >= HEADER_LEN && is_received(codec@, datagram@, found),
            None => datagram@.len() < HEADER_LEN,
        },
{
    if datagram.len() < HEADER_LEN {
        None
    } else {
        Some(receive(codec, datagram))
    }
}

/// Answers a request at the time `epoch_secs`, in seconds since the Unix
/// epoch.
///
/// A method of the routing table gets the table's result under the request's
/// own token. Any other method gets no answer.
pub fn route(request: &MessagePayload, epoch_secs: u64) -> (response: Option<ResponsePayload>)
    requires
        epoch_secs <= u64::MAX - URL_LIFETIME_SECS,
    ensures
        match response {
            Some(answer) => {
                &&& answer@.id == request.id
                &&& routed_result(request.method@, epoch_secs) == Some(answer@.result)
            },
            None => routed_result(request.method@, epoch_secs) is None,
        },
{
    let method = &request.method;
    if is_named(method, "_otc.info") {
        Some(ResponsePayload::new(request.id, otc_info()))
    } else if is_named(method, "props") || is_named(method, "event.status") || is_named(
        method,
        "event.low_power_back",
    ) {
        Some(ResponsePayload::new(request.id, JsonValue::string("ok")))
    } else if is_named(method, "_sync.gen_presigned_url") {
        Some(ResponsePayload::new(request.id, presigned_url(epoch_secs)))
    } else if is_named(method, "_sync.batch_gen_room_up_url") {
        Some(ResponsePayload::new(request.id, room_urls()))
    } else {
        None
    }
}

/// Answers a request now: as `route` does, with the system clock's reading
/// where the result depends on the time. The clock is read for no other
/// method.
pub fn respond(request: &MessagePayload) -> (response: Result<Option<ResponsePayload>, TimeError>)
    ensures
        match response {
            Ok(Some(answer)) => {
                &&& answer@.id == request.id
                &&& exists|epoch_secs: u64| #[trigger]
                    routed_result(request.method@, epoch_secs) == Some(answer@.result)
            },
            Ok(None) => forall|epoch_secs: u64| #[trigger]
                routed_result(request.method@, epoch_secs) is None,
            Err(_) => request.method@ == "_sync.gen_presigned_url"@,
        },
{
    let response = if is_named(&request.method, "_sync.gen_presigned_url") {
        respond_at(request, unix_time())
    } else {
        respond_at(request, None)
    };
    proof {
        if response is Ok && response->Ok_0 is Some && request.method@
            != "_sync.gen_presigned_url"@ {
            assert(routed_result(request.method@, 0) == Some(response->Ok_0->0@.result));
        }
    }
    response
}

/// Answers a request at a reading of the clock, as `unix_time` gives it.
///
/// Only `_sync.gen_presigned_url` looks at the reading: it fails where there
/// is none, and where the expiry time would pass the largest 64-bit number;
/// else it is answered as `route` answers it at that time. Every other
/// method is answered as `route` answers it at any time.
pub fn respond_at(request: &MessagePayload, reading: Option<u64>) -> (response: Result<
    Option<ResponsePayload>,
    TimeError,
>)
    ensures
        request.method@ == "_sync.gen_presigned_url"@ ==> match reading {
            None => response matches Err(e) && e == TimeError::BeforeEpoch,
            Some(now) => if now > u64::MAX - URL_LIFETIME_SECS {
                response matches Err(e) && e == TimeError::OutOfRange
            } else {
                response matches Ok(Some(answer)) && answer@.id == request.id && routed_result(
                    request.method@,
                    now,
                ) == Some(answer@.result)
            },
        },
        request.method@ != "_sync.gen_presigned_url"@ ==> match response {
            Ok(Some(answer)) => answer@.id == request.id && forall|epoch_secs: u64| #[trigger]
                routed_result(request.method@, epoch_secs) == Some(answer@.result),
            Ok(None) => forall|epoch_secs: u64| #[trigger]
                routed_result(request.method@, epoch_secs) is None,
            Err(_) => false,
        },
{
    if !is_named(&request.method, "_sync.gen_presigned_url") {
        let response = route(request, 0);
        proof {
            assert(forall|epoch_secs: u64| #[trigger]
                routed_result(request.method@, epoch_secs) == routed_result(request.method@, 0));
        }
        return Ok(response);
    }
    match reading {
        None => Err(TimeError::BeforeEpoch),
        Some(now) => {
            if now > u64::MAX - URL_LIFETIME_SECS {
                Err(TimeError::OutOfRange)
            } else {
                Ok(route(request, now))
            }
        },
    }
}

/// The method `props` is answered with the string `ok`, whatever the time.
pub proof fn lemma_props_result(epoch_secs: u64)
    ensures
        routed_result("props"@, epoch_secs) == Some(JsonView::String("ok"@)),
{
    reveal_strlit("props");
    reveal_strlit("_otc.info");
    assert("props"@.len() != "_otc.info"@.len());
}

/// The method `_sync.batch_gen_room_up_url` is answered with a list of four
/// URLs that end in 1, 2, 3 and 4, in that order, whatever the time.
pub proof fn lemma_room_urls_result(epoch_secs: u64)
    ensures
        routed_result("_sync.batch_gen_room_up_url"@, epoch_secs) == Some(room_urls_view()),
        room_urls_view() is Array,
        room_urls_view()->Array_0.len() == 4,
        room_urls_view()->Array_0[0] == JsonView::String(
            "http://us.ott.io.mi.com/robomap/"@.push('1'),
        ),
        room_urls_view()->Array_0[1] == JsonView::String(
            "http://us.ott.io.mi.com/robomap/"@.push('2'),
        ),
        room_urls_view()->Array_0[2] == JsonView::String(
            "http://us.ott.io.mi.com/robomap/"@.push('3'),
        ),
        room_urls_view()->Array_0[3] == JsonView::String(
            "http://us.ott.io.mi.com/robomap/"@.push('4'),
        ),
{
    reveal_strlit("_sync.batch_gen_room_up_url");
    reveal_strlit("_otc.info");
    reveal_strlit("props");
    reveal_strlit("event.status");
    reveal_strlit("event.low_power_back");
    reveal_strlit("_sync.gen_presigned_url");
    let name = "_sync.batch_gen_room_up_url"@;
    assert(name.len() != "_otc.info"@.len());
    assert(name.len() != "props"@.len());
    assert(name.len() != "event.status"@.len());
    assert(name.len() != "event.low_power_back"@.len());
    assert(name.len() != "_sync.gen_presigned_url"@.len());
    reveal_strlit("http://us.ott.io.mi.com/robomap/");
    reveal_strlit("http://us.ott.io.mi.com/robomap/1");
    reveal_strlit("http://us.ott.io.mi.com/robomap/2");
    reveal_strlit("http://us.ott.io.mi.com/robomap/3");
    reveal_strlit("http://us.ott.io.mi.com/robomap/4");
    let stem = "http://us.ott.io.mi.com/robomap/"@;
    assert("http://us.ott.io.mi.com/robomap/1"@ =~= stem.push('1'));
    assert("http://us.ott.io.mi.com/robomap/2"@ =~= stem.push('2'));
    assert("http://us.ott.io.mi.com/robomap/3"@ =~= stem.push('3'));
    assert("http://us.ott.io.mi.com/robomap/4"@ =~= stem.push('4'));
}

/// A method that is none of the table's six names gets no answer, whatever
/// the time.
pub proof fn lemma_unknown_method(method: Seq<char>, epoch_secs: u64)
    requires
        method != "_otc.info"@,
        method != "props"@,
        method != "event.status"@,
        method != "event.low_power_back"@,
        method != "_sync.gen_presigned_url"@,
        method != "_sync.batch_gen_room_up_url"@,
    ensures
        routed_result(method, epoch_secs) is None,
{
}

} // verus!
