//! The frame codec: between the bytes of a datagram and the plaintext of a
//! command.
//!
//! Both sides derive their session key and initialization vector from the
//! cloud key: the key is the MD5 digest of the cloud key, the vector the
//! digest of that key followed by the cloud key. A frame's body is the
//! plaintext under AES-128-CBC. Its checksum is the digest of the header's
//! first 16 bytes, the cloud key and the body, in that order.

use crate::clock::unix_time;
use crate::timesync::stamp_of;
use crate::crypto::{
    aes128_cbc_decrypt, aes128_cbc_encrypt, cbc_decrypt, cbc_encrypt, md5_digest, md5_of,
    padded_len,
};
use crate::header::{
    header_of, lemma_header_of_bytes, Header, HeaderView, HEADER_LEN,
    MAGIC, PREFIX_LEN,
};
use vstd::prelude::*;
use vstd::slice::{slice_subrange, slice_to_vec};
use vstd::utf8::{decode_utf8, encode_utf8, encode_utf8_decode_utf8, valid_utf8};

verus! {

/// The longest plaintext whose frame still fits the 16-bit length field.
pub const MAX_PAYLOAD_LEN: usize = 65487;

/// Why a reply could not be framed.
#[derive(Clone, Copy, Debug, PartialEq, Eq)]
pub enum EncodeError {
    /// The plaintext is longer than `MAX_PAYLOAD_LEN` bytes.
    PayloadTooLong,
    /// The system clock stands before the Unix epoch: there is no stamp.
    ClockBeforeEpoch,
}

/// The session key that a cloud key gives.
pub open spec fn session_key(cloud_key: Seq<u8>) -> Seq<u8> {
    md5_digest(cloud_key)
}

/// The initialization vector that a cloud key gives.
pub open spec fn session_iv(cloud_key: Seq<u8>) -> Seq<u8> {
    md5_digest(session_key(cloud_key) + cloud_key)
}

/// The checksum of a frame: `prefix` is the header's first 16 bytes.
pub open spec fn frame_checksum(cloud_key: Seq<u8>, prefix: Seq<u8>, body: Seq<u8>) -> Seq<u8> {
    md5_digest(prefix + cloud_key + body)
}

/// The header of the frame that carries `body` from the cloud to the device
/// `device_id`.
pub open spec fn sealed_header(
    cloud_key: Seq<u8>,
    body: Seq<u8>,
    device_id: u32,
    stamp: u32,
) -> HeaderView
    recommends
        32 + body.len() <= u16::MAX,
{
    let bare = HeaderView {
        magic: MAGIC,
        length: (32 + body.len()) as u16,
        reserved: 0,
        device_id,
        stamp,
        checksum: Seq::empty(),
    };
    HeaderView { checksum: frame_checksum(cloud_key, bare.prefix(), body), ..bare }
}

/// The frame that carries the plaintext `payload` to the device `device_id`:
/// the sealed header, then the payload's ciphertext.
pub open spec fn encoded_frame(
    cloud_key: Seq<u8>,
    payload: Seq<u8>,
    device_id: u32,
    stamp: u32,
) -> Seq<u8>
    recommends
        payload.len() <= MAX_PAYLOAD_LEN,
{
    let body = aes128_cbc_encrypt(session_key(cloud_key), session_iv(cloud_key), payload);
    sealed_header(cloud_key, body, device_id, stamp).bytes() + body
}

/// Whether `header` and `body` make a frame that was sealed under
/// `cloud_key`: a header of 32 bytes with the magic, a body that is not
/// empty, the length of the two in the length field, and the checksum that
/// the cloud key gives.
pub open spec fn frame_is_sealed(cloud_key: Seq<u8>, header: Seq<u8>, body: Seq<u8>) -> bool {
    &&& header.len() == 32
    &&& body.len() > 0
    &&& header_of(header).magic == MAGIC
    &&& header_of(header).length == 32 + body.len()
    &&& header_of(header).checksum == frame_checksum(cloud_key, header.subrange(0, 16), body)
}

/// The plaintext of a frame: that of its body where the frame is sealed and
/// the body decrypts, else none.
pub open spec fn decoded_payload(cloud_key: Seq<u8>, header: Seq<u8>, body: Seq<u8>) -> Option<
    Seq<u8>,
> {
    if frame_is_sealed(cloud_key, header, body) {
        aes128_cbc_decrypt(session_key(cloud_key), session_iv(cloud_key), body)
    } else {
        None
    }
}

/// The plaintext of a frame as text: none where there is no plaintext or it
/// is not UTF-8.
pub open spec fn decoded_text(cloud_key: Seq<u8>, header: Seq<u8>, body: Seq<u8>) -> Option<
    Seq<char>,
> {
    match decoded_payload(cloud_key, header, body) {
        Some(payload) => if valid_utf8(payload) {
            Some(decode_utf8(payload))
        } else {
            None
        },
        None => None,
    }
}

/// Decoding inverts encoding. It rests on three facts about the primitives,
/// which hold of every frame that `UDPCodec::encode_frame` has built: the
/// ciphertext has the padded length, decryption gives the plaintext back,
/// and the digest is 16 bytes long.
pub proof fn lemma_decode_inverts_encode(
    cloud_key: Seq<u8>,
    payload: Seq<u8>,
    device_id: u32,
    stamp: u32,
)
    requires
        payload.len() <= MAX_PAYLOAD_LEN,
        ({
            let key = session_key(cloud_key);
            let iv = session_iv(cloud_key);
            let body = aes128_cbc_encrypt(key, iv, payload);
            &&& body.len() == padded_len(payload.len())
            &&& aes128_cbc_decrypt(key, iv, body) == Some(payload)
            &&& frame_checksum(
                cloud_key,
                sealed_header(cloud_key, body, device_id, stamp).prefix(),
                body,
            ).len() == 16
        }),
    ensures
        ({
            let frame = encoded_frame(cloud_key, payload, device_id, stamp);
            let header = frame.subrange(0, 32);
            let body = frame.subrange(32, frame.len() as int);
            &&& frame.len() == 32 + padded_len(payload.len())
            &&& frame.len() <= u16::MAX
            &&& header_of(frame).length == frame.len()
            &&& header_of(frame).device_id == device_id
            &&& header_of(frame).stamp == stamp
            &&& frame_is_sealed(cloud_key, header, body)
            &&& decoded_payload(cloud_key, header, body) == Some(payload)
            &&& valid_utf8(payload) ==> decoded_text(cloud_key, header, body) == Some(
                decode_utf8(payload),
            )
        }),
{
    let body = aes128_cbc_encrypt(session_key(cloud_key), session_iv(cloud_key), payload);
    let sealed = sealed_header(cloud_key, body, device_id, stamp);
    let frame = sealed.bytes() + body;
    lemma_header_of_bytes(sealed, body);
    lemma_header_of_bytes(sealed, Seq::empty());
    assert(sealed.bytes() + Seq::<u8>::empty() =~= sealed.bytes());
    assert(frame.subrange(0, 32).subrange(0, 16) =~= sealed.prefix());
    assert(header_of(frame) == header_of(frame.subrange(0, 32)));
}

/// `String::from_utf8`: the text that `bytes` encode, or `None` where they
/// are not valid UTF-8.
#[verifier::external_body]
fn string_from_utf8(bytes: Vec<u8>) -> (text: Option<String>)
    ensures
        match text {
            Some(s) => valid_utf8(bytes@) && encode_utf8(s@) == bytes@,
            None => !valid_utf8(bytes@),
        },
{
    match String::from_utf8(bytes) {
        Ok(s) => Some(s),
        Err(_) => None,
    }
}

/// Whether two slices hold the same bytes.
fn same_bytes(a: &[u8], b: &[u8]) -> (same: bool)
    ensures
        same == (a@ == b@),
{
    if a.len() != b.len() {
        return false;
    }
    let mut i: usize = 0;
    while i < a.len()
        invariant
            i <= a@.len(),
            a@.len() == b@.len(),
            forall|j: int| 0 <= j < i ==> a@[j] == b@[j],
        decreases a@.len() - i,
    {
        if a[i] != b[i] {
            return false;
        }
        i += 1;
    }
    proof {
        assert(a@ =~= b@);
    }
    true
}

/// The bytes of `a` followed by those of `b`.
fn joined(a: &[u8], b: &[u8]) -> (both: Vec<u8>)
    ensures
        both@ == a@ + b@,
{
    let mut both: Vec<u8> = slice_to_vec(a);
    both.extend_from_slice(b);
    proof {
        assert(both@ =~= a@ + b@);
    }
    both
}

/// What a frame's checksum is the digest of: the header's first 16 bytes,
/// the cloud key and the body.
fn sealed_bytes(prefix: &[u8], cloud_key: &[u8], body: &[u8]) -> (sealed: Vec<u8>)
    ensures
        sealed@ == prefix@ + cloud_key@ + body@,
{
    let keyed = joined(prefix, cloud_key);
    joined(keyed.as_slice(), body)
}

/// The codec of one cloud key.
pub struct UDPCodec {
    cloud_key: Vec<u8>,
    key: [u8; 16],
    iv: [u8; 16],
}

impl View for UDPCodec {
    type V = Seq<u8>;

    /// The bytes of the cloud key.
    closed spec fn view(&self) -> Seq<u8> {
        self.cloud_key@
    }
}

impl UDPCodec {
    #[verifier::type_invariant]
    spec fn keys_derived(&self) -> bool {
        &&& self.key@ == session_key(self.cloud_key@)
        &&& self.iv@ == session_iv(self.cloud_key@)
    }

    /// The codec of the cloud key `cloud_key`, taken as its UTF-8 bytes.
    pub fn new(cloud_key: &str) -> (codec: UDPCodec)
        ensures
            codec@ == encode_utf8(cloud_key@),
    {
        let secret = cloud_key.as_bytes();
        let key = md5_of(secret);
        let seed = joined(key.as_slice(), secret);
        let iv = md5_of(seed.as_slice());
        UDPCodec { cloud_key: slice_to_vec(secret), key, iv }
    }

    /// Frames the plaintext `payload` for the device `device_id`, with
    /// `stamp` in the stamp field.
    ///
    /// The frame is refused where the payload is too long for the length
    /// field. A frame that is given decodes to the payload again.
    pub fn encode_frame(&self, payload: &[u8], device_id: u32, stamp: u32) -> (frame: Result<
        Vec<u8>,
        EncodeError,
    >)
        ensures
            frame is Ok <==> payload@.len() <= MAX_PAYLOAD_LEN,
            frame matches Err(e) ==> e == EncodeError::PayloadTooLong,
            frame matches Ok(bytes) ==> {
                &&& bytes@ == encoded_frame(self@, payload@, device_id, stamp)
                &&& bytes@.len() == 32 + padded_len(payload@.len())
                &&& header_of(bytes@).device_id == device_id
                &&& header_of(bytes@).stamp == stamp
                &&& decoded_payload(
                    self@,
                    bytes@.subrange(0, 32),
                    bytes@.subrange(32, bytes@.len() as int),
                ) == Some(payload@)
                &&& valid_utf8(payload@) ==> decoded_text(
                    self@,
                    bytes@.subrange(0, 32),
                    bytes@.subrange(32, bytes@.len() as int),
                ) == Some(decode_utf8(payload@))
            },
    {
        if payload.len() > MAX_PAYLOAD_LEN {
            return Err(EncodeError::PayloadTooLong);
        }
        proof {
            use_type_invariant(self);
        }
        let body = cbc_encrypt(&self.key, &self.iv, payload);
        let length: u16 = (HEADER_LEN + body.len()) as u16;
        let bare = Header {
            magic: MAGIC,
            length,
            reserved: 0,
            device_id,
            stamp,
            checksum: [0; 16],
        };
        let bare_bytes = bare.to_bytes();
        let sealed = sealed_bytes(
            slice_subrange(bare_bytes.as_slice(), 0, PREFIX_LEN),
            self.cloud_key.as_slice(),
            body.as_slice(),
        );
        let checksum = md5_of(sealed.as_slice());
        let header = Header { magic: MAGIC, length, reserved: 0, device_id, stamp, checksum };
        let mut frame = header.to_bytes();
        frame.extend_from_slice(body.as_slice());
        proof {
            lemma_header_of_bytes(bare@, Seq::empty());
            assert(bare@.bytes() + Seq::<u8>::empty() =~= bare@.bytes());
            assert(bare_bytes@.subrange(0, 16) == bare@.prefix());
            assert(bare@.prefix() == header@.prefix());
            assert(header@ =~= sealed_header(self@, body@, device_id, stamp));
            assert(frame@ =~= header@.bytes() + body@);
            lemma_decode_inverts_encode(self@, payload@, device_id, stamp);
        }
        Ok(frame)
    }

    /// Frames the plaintext `payload` for the device `device_id`, stamped
    /// with the low 32 bits of the system clock's seconds.
    ///
    /// The frame is refused where the payload is too long, and else where
    /// the clock has no reading. A frame that is given decodes to the payload
    /// again.
    pub fn encode_response(&self, payload: &[u8], device_id: u32) -> (frame: Result<
        Vec<u8>,
        EncodeError,
    >)
        ensures
            frame == Err::<Vec<u8>, EncodeError>(EncodeError::PayloadTooLong) <==> payload@.len()
                > MAX_PAYLOAD_LEN,
            frame matches Ok(bytes) ==> {
                &&& exists|stamp: u32|
                    bytes@ == #[trigger] encoded_frame(self@, payload@, device_id, stamp)
                &&& bytes@.len() == 32 + padded_len(payload@.len())
                &&& header_of(bytes@).device_id == device_id
                &&& decoded_payload(
                    self@,
                    bytes@.subrange(0, 32),
                    bytes@.subrange(32, bytes@.len() as int),
                ) == Some(payload@)
            },
    {
        self.encode_response_at(payload, device_id, unix_time())
    }

    /// Frames the plaintext `payload` for the device `device_id`, stamped
    /// with the low 32 bits of `reading`, the seconds that the clock gave.
    ///
    /// A payload that is too long is refused first; then a reading that is
    /// none, since there is no stamp without one. On every other input the
    /// frame is given, and it decodes to the payload again.
    pub fn encode_response_at(&self, payload: &[u8], device_id: u32, reading: Option<u64>) -> (frame:
        Result<Vec<u8>, EncodeError>)
        ensures
            payload@.len() > MAX_PAYLOAD_LEN ==> (frame matches Err(e) && e
                == EncodeError::PayloadTooLong),
            payload@.len() <= MAX_PAYLOAD_LEN && reading is None ==> (frame matches Err(e) && e
                == EncodeError::ClockBeforeEpoch),
            payload@.len() <= MAX_PAYLOAD_LEN && reading is Some ==> (frame matches Ok(bytes) && {
                &&& bytes@ == encoded_frame(self@, payload@, device_id, stamp_of(reading->0))
                &&& bytes@.len() == 32 + padded_len(payload@.len())
                &&& header_of(bytes@).device_id == device_id
                &&& header_of(bytes@).stamp == stamp_of(reading->0)
                &&& decoded_payload(
                    self@,
                    bytes@.subrange(0, 32),
                    bytes@.subrange(32, bytes@.len() as int),
                ) == Some(payload@)
            }),
    {
        if payload.len() > MAX_PAYLOAD_LEN {
            return Err(EncodeError::PayloadTooLong);
        }
        match reading {
            Some(now) => {
                let stamp: u32 = (now % 0x1_0000_0000) as u32;
                self.encode_frame(payload, device_id, stamp)
            },
            None => Err(EncodeError::ClockBeforeEpoch),
        }
    }

    /// Opens a frame: the plaintext of `body`, or `None` where the frame is
    /// not one sealed under this cloud key or its body does not decrypt.
    pub fn decode_frame(&self, header: &[u8], body: &[u8]) -> (payload: Option<Vec<u8>>)
        ensures
            match payload {
                Some(bytes) => decoded_payload(self@, header@, body@) == Some(bytes@),
                None => decoded_payload(self@, header@, body@) is None,
            },
    {
        if header.len() != HEADER_LEN || body.len() == 0 {
            return None;
        }
        let parsed = match Header::parse(header) {
            Some(h) => h,
            None => { return None; },
        };
        if parsed.magic != MAGIC {
            return None;
        }
        if parsed.length < 32 || (parsed.length - 32) as usize != body.len() {
            return None;
        }
        let sealed = sealed_bytes(
            slice_subrange(header, 0, PREFIX_LEN),
            self.cloud_key.as_slice(),
            body,
        );
        let checksum = md5_of(sealed.as_slice());
        if !same_bytes(checksum.as_slice(), parsed.checksum.as_slice()) {
            return None;
        }
        proof {
            use_type_invariant(self);
        }
        cbc_decrypt(&self.key, &self.iv, body)
    }

    /// Opens a frame and reads its plaintext as text: `None` where the frame
    /// does not open, and where its plaintext is not UTF-8.
    pub fn decode_response(&self, header: &[u8], encrypted_body: &[u8]) -> (text: Option<String>)
        ensures
            match text {
                Some(s) => decoded_text(self@, header@, encrypted_body@) == Some(s@),
                None => decoded_text(self@, header@, encrypted_body@) is None,
            },
    {
        match self.decode_frame(header, encrypted_body) {
            Some(payload) => {
                let text = string_from_utf8(payload);
                proof {
                    if text is Some {
                        encode_utf8_decode_utf8(text->0@);
                    }
                }
                text
            },
            None => None,
        }
    }
}

} // verus!
