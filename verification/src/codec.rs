//! The message codec: envelope construction, signing, and multipart frame
//! serialization and deserialization.
//!
//! A wire message is the frame list
//! `[delimiter, signature, header, parent_header, metadata, content]`,
//! optionally preceded by routing-identity frames on the inbound side. The
//! signature is HMAC-SHA256 over the four JSON texts in order, hex-encoded.

use vstd::prelude::*;
use vstd::utf8::valid_utf8;
use vstd::utf8::valid_utf8_concat;
use crate::bytes::spec_delimiter;
use crate::bytes::delimiter;
use crate::bytes::spec_username;
use crate::bytes::username;
use crate::bytes::spec_dec;
use crate::bytes::u64_to_dec;
use crate::bytes::bytes_eq;
use crate::bytes::copy_bytes;
use crate::bytes::append_bytes;
use crate::bytes::check_utf8;
use crate::bytes::lemma_ascii_valid_utf8;
use crate::bytes::lemma_dec_is_ascii;
use crate::bytes::lemma_frames_deep_view;
use crate::crypto::hmac_sha256_tag;
use crate::crypto::spec_hex;
use crate::crypto::is_hex_digit_byte;
use crate::crypto::lemma_hex_digits;
use crate::crypto::hmac_sha256;
use crate::crypto::hex_encode;
use crate::json::JsonObject;
use crate::json::jmap_model;
use crate::json::jmap_new;
use crate::json::jmap_set_string;
use crate::json::jmap_to_bytes;
use crate::json::check_json_object;
use crate::json::is_json_object;
use crate::json::json_object_repr;
use crate::json::json_string_repr;
use crate::json::empty_model;
use crate::json::jmap_shallow;

verus! {

/// The error taxonomy of the protocol layer.
#[derive(Clone, Copy, Debug, PartialEq, Eq, Structural)]
pub enum WireError {
    /// Socket-level failure, raised by the surrounding transport code.
    TransportError,
    /// No delimiter frame, or too few frames after it.
    MalformedMessage,
    /// A body frame is not valid UTF-8.
    InvalidEncoding,
    /// A body frame is not a JSON object.
    InvalidPayload,
    /// A `status` reply carried an unrecognized execution state.
    UnknownExecutionState,
}

/// The four JSON texts of a message body, each a UTF-8 byte string holding
/// one JSON object.
#[derive(Debug)]
pub struct Envelope {
    pub header: Vec<u8>,
    pub parent_header: Vec<u8>,
    pub metadata: Vec<u8>,
    pub content: Vec<u8>,
}

/// The mathematical value of an envelope: its four texts.
#[verifier::ext_equal]
pub ghost struct EnvelopeView {
    pub header: Seq<u8>,
    pub parent_header: Seq<u8>,
    pub metadata: Seq<u8>,
    pub content: Seq<u8>,
}

impl View for Envelope {
    type V = EnvelopeView;

    open spec fn view(&self) -> EnvelopeView {
        EnvelopeView {
            header: self.header@,
            parent_header: self.parent_header@,
            metadata: self.metadata@,
            content: self.content@,
        }
    }
}

/// A well-formed envelope: each field is UTF-8 text holding a JSON object.
pub open spec fn env_wf(e: EnvelopeView) -> bool {
    &&& valid_utf8(e.header) && is_json_object(e.header)
    &&& valid_utf8(e.parent_header) && is_json_object(e.parent_header)
    &&& valid_utf8(e.metadata) && is_json_object(e.metadata)
    &&& valid_utf8(e.content) && is_json_object(e.content)
}

/// The four body parts in protocol order.
pub open spec fn spec_body_parts(e: EnvelopeView) -> Seq<Seq<u8>> {
    seq![e.header, e.parent_header, e.metadata, e.content]
}

/// The signature over the given parts: HMAC-SHA256 keyed by `key` over their
/// concatenation, hex-encoded. Feeding the parts to HMAC one by one is
/// byte-identical to hashing their concatenation, so the concatenation is
/// what the specification speaks of.
pub open spec fn spec_sign(key: Seq<u8>, parts: Seq<Seq<u8>>) -> Seq<u8> {
    spec_hex(hmac_sha256_tag(key, parts.flatten()))
}

/// Signs the given parts in order with HMAC-SHA256, hex-encoding the tag.
pub fn sign(key: &Vec<u8>, parts: &Vec<Vec<u8>>) -> (r: Vec<u8>)
    ensures
        r@ == spec_sign(key@, parts.deep_view()),
        r@.len() == 64,
{
    let ghost dv = parts.deep_view();
    let mut data: Vec<u8> = Vec::new();
    let mut i: usize = 0;
    proof {
        assert(dv.take(0) =~= Seq::<Seq<u8>>::empty());
        assert(Seq::<Seq<u8>>::empty().flatten() =~= Seq::<u8>::empty());
    }
    while i < parts.len()
        invariant
            i <= parts@.len(),
            dv == parts.deep_view(),
            dv.len() == parts@.len(),
            data@ == dv.take(i as int).flatten(),
        decreases parts@.len() - i,
    {
        proof {
            assert(dv[i as int] == parts@[i as int]@);
            assert(dv.take(i as int + 1) =~= dv.take(i as int).push(dv[i as int]));
        }
        append_bytes(&mut data, &parts[i]);
        proof {
            dv.take(i as int).lemma_flatten_push(dv[i as int]);
            assert(data@ == dv.take(i as int + 1).flatten());
        }
        i += 1;
    }
    proof {
        assert(dv.take(parts@.len() as int) =~= dv);
        lemma_hex_digits(hmac_sha256_tag(key@, data@));
    }
    let tag = hmac_sha256(key, &data);
    hex_encode(&tag)
}

/// The serialized form of an envelope: exactly six frames, the delimiter,
/// the signature, then the four body parts.
pub open spec fn spec_serialize(e: EnvelopeView, key: Seq<u8>) -> Seq<Seq<u8>> {
    seq![spec_delimiter(), spec_sign(key, spec_body_parts(e))] + spec_body_parts(e)
}

/// Serializes an envelope: signs the four body parts and prepends the
/// delimiter and the signature. The frame shape invariant stands here:
/// always exactly six frames, the first the delimiter literal, the second a
/// 64-character lowercase-hex string (the length of a hex-encoded SHA-256
/// tag).
pub fn serialize(env: &Envelope, key: &Vec<u8>) -> (r: Vec<Vec<u8>>)
    ensures
        r.deep_view() == spec_serialize(env@, key@),
        r@.len() == 6,
        r.deep_view()[0] == spec_delimiter(),
        r.deep_view()[1].len() == 64,
        forall|i: int| 0 <= i < 64 ==> is_hex_digit_byte(#[trigger] r.deep_view()[1][i]),
{
    let mut parts: Vec<Vec<u8>> = Vec::new();
    parts.push(copy_bytes(&env.header));
    parts.push(copy_bytes(&env.parent_header));
    parts.push(copy_bytes(&env.metadata));
    parts.push(copy_bytes(&env.content));
    proof {
        lemma_frames_deep_view(parts);
        assert(parts.deep_view() =~= spec_body_parts(env@));
    }
    let sig = sign(key, &parts);
    proof {
        lemma_hex_digits(hmac_sha256_tag(key@, spec_body_parts(env@).flatten()));
    }
    let mut frames: Vec<Vec<u8>> = Vec::new();
    frames.push(delimiter());
    frames.push(sig);
    frames.push(copy_bytes(&env.header));
    frames.push(copy_bytes(&env.parent_header));
    frames.push(copy_bytes(&env.metadata));
    frames.push(copy_bytes(&env.content));
    proof {
        lemma_frames_deep_view(frames);
        assert(frames.deep_view() =~= spec_serialize(env@, key@));
    }
    frames
}

/// Signature determinism: the signature is a function of the key and the
/// parts alone, so equal inputs always sign identically.
pub proof fn lemma_sign_deterministic(
    key1: Seq<u8>,
    parts1: Seq<Seq<u8>>,
    key2: Seq<u8>,
    parts2: Seq<Seq<u8>>,
)
    requires
        key1 == key2,
        parts1 == parts2,
    ensures
        spec_sign(key1, parts1) == spec_sign(key2, parts2),
{
}

/// The position of the first delimiter frame, if any.
pub open spec fn spec_find_delimiter(frames: Seq<Seq<u8>>) -> Option<int>
    decreases frames.len(),
{
    if frames.len() == 0 {
        Option::None
    } else if frames[0] == spec_delimiter() {
        Option::Some(0)
    } else {
        match spec_find_delimiter(frames.drop_first()) {
            Option::Some(i) => Option::Some(i + 1),
            Option::None => Option::None,
        }
    }
}

/// A scan that found the delimiter at `i`, nothing earlier, matches the spec.
proof fn lemma_find_delimiter_some(frames: Seq<Seq<u8>>, i: int)
    requires
        0 <= i < frames.len(),
        frames[i] == spec_delimiter(),
        forall|j: int| 0 <= j < i ==> frames[j] != spec_delimiter(),
    ensures
        spec_find_delimiter(frames) == Option::Some(i),
    decreases i,
{
    if i > 0 {
        lemma_find_delimiter_some(frames.drop_first(), i - 1);
    }
}

/// A scan that found no delimiter matches the spec.
proof fn lemma_find_delimiter_none(frames: Seq<Seq<u8>>)
    requires
        forall|j: int| 0 <= j < frames.len() ==> frames[j] != spec_delimiter(),
    ensures
        spec_find_delimiter(frames) == Option::<int>::None,
    decreases frames.len(),
{
    if frames.len() > 0 {
        lemma_find_delimiter_none(frames.drop_first());
    }
}

/// What deserialization yields for a frame list: the envelope whose fields
/// are the four frames after the signature, or the first error found, in
/// this order: no delimiter or too few frames after it, then text that is
/// not UTF-8, then text that is not a JSON object.
pub open spec fn spec_deserialize(frames: Seq<Seq<u8>>) -> Result<EnvelopeView, WireError> {
    match spec_find_delimiter(frames) {
        Option::None => Result::Err(WireError::MalformedMessage),
        Option::Some(d) => {
            if frames.len() < d + 6 {
                Result::Err(WireError::MalformedMessage)
            } else {
                let e = EnvelopeView {
                    header: frames[d + 2],
                    parent_header: frames[d + 3],
                    metadata: frames[d + 4],
                    content: frames[d + 5],
                };
                if !(valid_utf8(e.header) && valid_utf8(e.parent_header) && valid_utf8(e.metadata)
                    && valid_utf8(e.content)) {
                    Result::Err(WireError::InvalidEncoding)
                } else if !(is_json_object(e.header) && is_json_object(e.parent_header)
                    && is_json_object(e.metadata) && is_json_object(e.content)) {
                    Result::Err(WireError::InvalidPayload)
                } else {
                    Result::Ok(e)
                }
            }
        },
    }
}

/// Scans a frame list for the first delimiter frame.
fn find_delimiter(frames: &Vec<Vec<u8>>) -> (r: Option<usize>)
    ensures
        (r matches Some(d) ==> spec_find_delimiter(frames.deep_view()) == Option::Some(d as int)
            && d < frames@.len()),
        (r is None ==> spec_find_delimiter(frames.deep_view()) is None),
{
    let ghost dv = frames.deep_view();
    proof {
        lemma_frames_deep_view(*frames);
    }
    let delim = delimiter();
    let mut d: usize = 0;
    while d < frames.len()
        invariant
            d <= frames@.len(),
            dv == frames.deep_view(),
            dv.len() == frames@.len(),
            forall|i: int| 0 <= i < frames@.len() ==> #[trigger] dv[i] == frames@[i]@,
            delim@ == spec_delimiter(),
            forall|j: int| 0 <= j < d ==> dv[j] != spec_delimiter(),
        decreases frames@.len() - d,
    {
        if bytes_eq(&frames[d], &delim) {
            proof {
                lemma_find_delimiter_some(dv, d as int);
            }
            return Some(d);
        }
        d += 1;
    }
    proof {
        lemma_find_delimiter_none(dv);
    }
    None
}

/// Parses a frame list back into an envelope: scans for the delimiter,
/// takes the next frame as the signature (checked separately, see
/// `signature_valid`), and the four frames after it as the body texts.
pub fn deserialize(frames: &Vec<Vec<u8>>) -> (r: Result<Envelope, WireError>)
    ensures
        (r matches Ok(env) ==> spec_deserialize(frames.deep_view()) == Result::<
            EnvelopeView,
            WireError,
        >::Ok(env@) && env_wf(env@)),
        (r matches Err(e) ==> spec_deserialize(frames.deep_view()) == Result::<
            EnvelopeView,
            WireError,
        >::Err(e)),
{
    let ghost dv = frames.deep_view();
    proof {
        lemma_frames_deep_view(*frames);
    }
    let d = match find_delimiter(frames) {
        Some(d) => d,
        None => {
            return Err(WireError::MalformedMessage);
        },
    };
    if frames.len() - d < 6 {
        return Err(WireError::MalformedMessage);
    }
    let header = copy_bytes(&frames[d + 2]);
    let parent_header = copy_bytes(&frames[d + 3]);
    let metadata = copy_bytes(&frames[d + 4]);
    let content = copy_bytes(&frames[d + 5]);
    if !(check_utf8(&header) && check_utf8(&parent_header) && check_utf8(&metadata) && check_utf8(
        &content,
    )) {
        return Err(WireError::InvalidEncoding);
    }
    if !(check_json_object(&header) && check_json_object(&parent_header) && check_json_object(
        &metadata,
    ) && check_json_object(&content)) {
        return Err(WireError::InvalidPayload);
    }
    Ok(Envelope { header, parent_header, metadata, content })
}

/// Round trip: deserializing the frames serialized from a well-formed
/// envelope reproduces that envelope's four fields exactly.
pub proof fn lemma_round_trip(e: EnvelopeView, key: Seq<u8>)
    requires
        env_wf(e),
    ensures
        spec_deserialize(spec_serialize(e, key)) == Result::<EnvelopeView, WireError>::Ok(e),
{
    let frames = spec_serialize(e, key);
    assert(frames[0] == spec_delimiter());
    lemma_find_delimiter_some(frames, 0);
    assert(frames.len() == 6);
    let got = EnvelopeView {
        header: frames[2],
        parent_header: frames[3],
        metadata: frames[4],
        content: frames[5],
    };
    assert(got =~= e);
}

/// A frame list without the delimiter literal fails with `MalformedMessage`,
/// before any decoding of frame contents is attempted.
pub proof fn lemma_missing_delimiter(frames: Seq<Seq<u8>>)
    requires
        forall|j: int| 0 <= j < frames.len() ==> frames[j] != spec_delimiter(),
    ensures
        spec_deserialize(frames) == Result::<EnvelopeView, WireError>::Err(
            WireError::MalformedMessage,
        ),
{
    lemma_find_delimiter_none(frames);
}

/// Whether the signature frame of a received message is the signature of its
/// four body parts: true exactly when a delimiter is present, enough frames
/// follow it, and the frame after the delimiter equals a freshly computed
/// signature.
pub open spec fn spec_signature_valid(frames: Seq<Seq<u8>>, key: Seq<u8>) -> bool {
    match spec_find_delimiter(frames) {
        Option::None => false,
        Option::Some(d) => frames.len() >= d + 6 && frames[d + 1] == spec_sign(
            key,
            seq![frames[d + 2], frames[d + 3], frames[d + 4], frames[d + 5]],
        ),
    }
}

/// A serialized envelope always carries a signature that checks out.
pub proof fn lemma_serialize_signature_valid(e: EnvelopeView, key: Seq<u8>)
    ensures
        spec_signature_valid(spec_serialize(e, key), key),
{
    let frames = spec_serialize(e, key);
    assert(frames[0] == spec_delimiter());
    lemma_find_delimiter_some(frames, 0);
    assert(seq![frames[2], frames[3], frames[4], frames[5]] =~= spec_body_parts(e));
}

/// Checks a received message's signature against one freshly computed over
/// its four body parts, closing the authenticity gap that parsing alone
/// leaves open.
pub fn signature_valid(frames: &Vec<Vec<u8>>, key: &Vec<u8>) -> (r: bool)
    ensures
        r == spec_signature_valid(frames.deep_view(), key@),
{
    let ghost dv = frames.deep_view();
    proof {
        lemma_frames_deep_view(*frames);
    }
    let d = match find_delimiter(frames) {
        Some(d) => d,
        None => {
            return false;
        },
    };
    if frames.len() - d < 6 {
        return false;
    }
    let mut parts: Vec<Vec<u8>> = Vec::new();
    parts.push(copy_bytes(&frames[d + 2]));
    parts.push(copy_bytes(&frames[d + 3]));
    parts.push(copy_bytes(&frames[d + 4]));
    parts.push(copy_bytes(&frames[d + 5]));
    proof {
        lemma_frames_deep_view(parts);
        assert(parts.deep_view() =~= seq![
            dv[d as int + 2],
            dv[d as int + 3],
            dv[d as int + 4],
            dv[d as int + 5],
        ]);
    }
    let expected = sign(key, &parts);
    bytes_eq(&frames[d + 1], &expected)
}

/// The identifier of the next outbound message: the session id, an
/// underscore, and the counter's decimal digits.
pub open spec fn spec_msg_id(session: Seq<u8>, counter: u64) -> Seq<u8> {
    session + seq![95u8] + spec_dec(counter as nat)
}

/// The header contents of an outbound message: its id, its type, the fixed
/// username, and the session id, each stored as a JSON string.
pub open spec fn spec_header_model(msg_id: Seq<u8>, msg_type: Seq<u8>, session: Seq<u8>) -> Map<
    Seq<char>,
    Seq<u8>,
> {
    empty_model().insert("msg_id"@, json_string_repr(msg_id)).insert(
        "msg_type"@,
        json_string_repr(msg_type),
    ).insert("username"@, json_string_repr(spec_username())).insert(
        "session"@,
        json_string_repr(session),
    )
}

/// The view of an envelope built for the given header data and content.
pub open spec fn spec_built_envelope(
    session: Seq<u8>,
    counter: u64,
    msg_type: Seq<u8>,
    content_model: Map<Seq<char>, Seq<u8>>,
) -> EnvelopeView {
    EnvelopeView {
        header: json_object_repr(
            spec_header_model(spec_msg_id(session, counter), msg_type, session),
        ),
        parent_header: json_object_repr(empty_model()),
        metadata: json_object_repr(empty_model()),
        content: json_object_repr(content_model),
    }
}

/// The underscore and digits appended to the session id are valid UTF-8.
proof fn lemma_msg_id_valid_utf8(session: Seq<u8>, counter: u64)
    requires
        valid_utf8(session),
    ensures
        valid_utf8(spec_msg_id(session, counter)),
{
    let tail = seq![95u8] + spec_dec(counter as nat);
    lemma_dec_is_ascii(counter as nat);
    assert(forall|i: int| 0 <= i < tail.len() ==> #[trigger] tail[i] < 128);
    lemma_ascii_valid_utf8(tail);
    valid_utf8_concat(session, tail);
    assert(session + tail =~= spec_msg_id(session, counter));
}

/// Builds an envelope: a header holding the message id derived from the
/// session id and the counter, the given message type, the fixed username
/// and the session id; empty parent header and metadata; the given content
/// stored verbatim. Fails with `InvalidEncoding` exactly when the session id
/// or the message type is not valid UTF-8. The content must be shallow
/// (scalar values only): only then is its serialized text sure to parse
/// back, which a well-formed envelope promises.
pub fn build_envelope(
    session_id: &Vec<u8>,
    counter: u64,
    msg_type: &Vec<u8>,
    content: &JsonObject,
) -> (r: Result<Envelope, WireError>)
    requires
        jmap_shallow(*content),
    ensures
        (r matches Ok(env) ==> env@ == spec_built_envelope(
            session_id@,
            counter,
            msg_type@,
            jmap_model(*content),
        ) && env_wf(env@)),
        (r matches Err(e) ==> e == WireError::InvalidEncoding),
        (r is Ok <==> valid_utf8(session_id@) && valid_utf8(msg_type@)),
{
    // msg_id = session_id ++ "_" ++ decimal(counter)
    let mut msg_id: Vec<u8> = copy_bytes(session_id);
    msg_id.push(95u8);
    let digits = u64_to_dec(counter);
    append_bytes(&mut msg_id, &digits);
    proof {
        assert(msg_id@ =~= spec_msg_id(session_id@, counter));
    }

    let mut header = jmap_new();
    if !jmap_set_string(&mut header, "msg_id", &msg_id) {
        proof {
            if valid_utf8(session_id@) {
                lemma_msg_id_valid_utf8(session_id@, counter);
            }
        }
        return Err(WireError::InvalidEncoding);
    }
    proof {
        // the session id is a prefix of the valid UTF-8 message id, ending at
        // a character boundary: the underscore that follows it
        let n = session_id@.len() as int;
        assert(msg_id@[n] == 95u8);
        assert(!vstd::utf8::is_continuation_byte(msg_id@[n]));
        vstd::utf8::is_char_boundary_iff_not_is_continuation_byte(msg_id@, n);
        vstd::utf8::valid_utf8_split(msg_id@, n);
        assert(msg_id@.subrange(0, n) =~= session_id@);
        assert(valid_utf8(session_id@));
    }
    if !jmap_set_string(&mut header, "msg_type", msg_type) {
        return Err(WireError::InvalidEncoding);
    }
    let uname = username();
    if !jmap_set_string(&mut header, "username", &uname) {
        proof {
            assert(forall|i: int|
                0 <= i < spec_username().len() ==> #[trigger] spec_username()[i] < 128);
            lemma_ascii_valid_utf8(spec_username());
        }
        return Err(WireError::InvalidEncoding);
    }
    if !jmap_set_string(&mut header, "session", session_id) {
        return Err(WireError::InvalidEncoding);
    }

    let empty = jmap_new();
    let env = Envelope {
        header: jmap_to_bytes(&header),
        parent_header: jmap_to_bytes(&empty),
        metadata: jmap_to_bytes(&empty),
        content: jmap_to_bytes(content),
    };
    Ok(env)
}

} // verus!
