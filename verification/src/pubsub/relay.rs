//! The cross-process relay protocol: wire encoding of messages, channel
//! naming, and presence marking.
//!
//! A relay-backed backbone serializes each message as a tagged union —
//! text or binary, each length-prefixed — and publishes it on a channel
//! named after the topic under the relay's namespace prefix.  A
//! background subscriber strips the prefix, decodes, and forwards to the
//! registered receiver; on any connectivity error it sleeps a fixed
//! backoff and retries forever.  Presence is a per-user marker key with a
//! short time-to-live, visible to every process.  The relay transport
//! itself (the broker connection, the subscriber task) is I/O run by the
//! surrounding application; everything it computes is decided here.

use vstd::prelude::*;

verus! {

use crate::pubsub::Msg;
use crate::pubsub::MsgView;
use crate::table::str_eq;
use vstd::string::StrSliceExecFns;
use vstd::string::StringExecFns;
use vstd::utf8::decode_utf8;
use vstd::utf8::encode_utf8;
use vstd::utf8::valid_utf8;

/// Seconds a presence marker lives without being refreshed.
pub const CONNECTION_STATE_TTL_SECONDS: u64 = 10;

/// Seconds the relay subscriber sleeps after a connectivity error before
/// it retries; it retries forever.
pub const RELAY_RETRY_SECONDS: u64 = 2;

/// Little-endian base-128 encoding of a length: seven value bits per
/// byte, the high bit marking continuation.
pub open spec fn spec_varint(n: nat) -> Seq<u8>
    decreases n,
{
    if n < 128 {
        seq![n as u8]
    } else {
        seq![(128 + (n % 128)) as u8] + spec_varint(n / 128)
    }
}

/// Strict parse of a varint at `pos`: returns the value and the position
/// after it, accepting exactly the encodings `spec_varint` produces.
pub open spec fn spec_parse_varint(bytes: Seq<u8>, pos: int) -> Option<(nat, int)>
    decreases bytes.len() - pos,
{
    if pos < 0 || pos >= bytes.len() {
        None
    } else if bytes[pos] < 128 {
        Some((bytes[pos] as nat, pos + 1))
    } else {
        match spec_parse_varint(bytes, pos + 1) {
            Some(vp) => if vp.0 == 0 {
                None
            } else {
                Some((((bytes[pos] - 128) + 128 * vp.0) as nat, vp.1))
            },
            None => None,
        }
    }
}

/// Parsing a buffer that carries `spec_varint(n)` at `pos` yields exactly
/// `n` and stops right after it.
proof fn lemma_parse_varint(n: nat, bytes: Seq<u8>, pos: int)
    requires
        0 <= pos,
        pos + spec_varint(n).len() <= bytes.len(),
        bytes.subrange(pos, pos + spec_varint(n).len() as int) == spec_varint(n),
    ensures
        spec_parse_varint(bytes, pos) == Some((n, pos + spec_varint(n).len() as int)),
    decreases n,
{
    vstd::arithmetic::div_mod::lemma_fundamental_div_mod(n as int, 128);
    if n < 128 {
        assert(bytes[pos] == spec_varint(n)[0]);
    } else {
        assert(bytes[pos] == spec_varint(n)[0]);
        let v = spec_varint(n);
        assert(v == seq![(128 + (n % 128)) as u8] + spec_varint(n / 128));
        let tail = spec_varint(n / 128);
        assert forall|i: int|
            0 <= i < tail.len() implies bytes.subrange(pos + 1, pos + v.len() as int)[i]
            == tail[i] by {
            assert(bytes.subrange(pos + 1, pos + v.len() as int)[i] == bytes[pos + 1 + i]);
            assert(bytes.subrange(pos, pos + v.len() as int)[1 + i] == bytes[pos + 1 + i]);
            assert(v[1 + i] == tail[i]);
        }
        assert(bytes.subrange(pos + 1, pos + spec_varint(n).len() as int) =~= spec_varint(n / 128));
        lemma_parse_varint(n / 128, bytes, pos + 1);
    }
}

/// The wire form of a message: a one-byte tag (text or binary), the
/// payload length as a varint, then the payload bytes — text as UTF-8.
pub open spec fn spec_encode_msg(m: MsgView) -> Seq<u8> {
    match m {
        MsgView::Text(s) => seq![0u8] + spec_varint(encode_utf8(s).len()) + encode_utf8(s),
        MsgView::Binary(b) => seq![1u8] + spec_varint(b.len()) + b,
    }
}

/// Strict decoding of a wire message: the tag must be known, the length
/// must match the remaining bytes exactly, and a text payload must be
/// valid UTF-8.
pub open spec fn spec_decode_msg(bytes: Seq<u8>) -> Option<MsgView> {
    if bytes.len() == 0 {
        None
    } else if bytes[0] == 0 {
        match spec_parse_varint(bytes, 1) {
            Some(vp) => if vp.0 as int == bytes.len() - vp.1 {
                let payload = bytes.subrange(vp.1, bytes.len() as int);
                if valid_utf8(payload) {
                    Some(MsgView::Text(decode_utf8(payload)))
                } else {
                    None
                }
            } else {
                None
            },
            None => None,
        }
    } else if bytes[0] == 1 {
        match spec_parse_varint(bytes, 1) {
            Some(vp) => if vp.0 as int == bytes.len() - vp.1 {
                Some(MsgView::Binary(bytes.subrange(vp.1, bytes.len() as int)))
            } else {
                None
            },
            None => None,
        }
    } else {
        None
    }
}

/// Law: the relay's wire round trip is the identity.  Decoding an encoded
/// message — text or binary, of any size — gives back exactly the message
/// that was published.
pub proof fn lemma_msg_round_trip(m: MsgView)
    ensures
        spec_decode_msg(spec_encode_msg(m)) == Some(m),
{
    match m {
        MsgView::Text(s) => {
            let payload = encode_utf8(s);
            let v = spec_varint(payload.len());
            let bytes = spec_encode_msg(m);
            assert(bytes =~= seq![0u8] + v + payload);
            assert(bytes[0] == 0);
            assert(bytes.subrange(1, 1 + v.len() as int) =~= v);
            lemma_parse_varint(payload.len(), bytes, 1);
            assert(bytes.subrange(1 + v.len() as int, bytes.len() as int) =~= payload);
            vstd::utf8::encode_utf8_valid_utf8(s);
            vstd::utf8::encode_utf8_decode_utf8(s);
        },
        MsgView::Binary(b) => {
            let v = spec_varint(b.len());
            let bytes = spec_encode_msg(m);
            assert(bytes =~= seq![1u8] + v + b);
            assert(bytes[0] == 1);
            assert(bytes.subrange(1, 1 + v.len() as int) =~= v);
            lemma_parse_varint(b.len(), bytes, 1);
            assert(bytes.subrange(1 + v.len() as int, bytes.len() as int) =~= b);
        },
    }
}

/// Appends the varint encoding of `n`.
fn push_varint(out: &mut Vec<u8>, n: usize)
    ensures
        final(out)@ == old(out)@ + spec_varint(n as nat),
    decreases n,
{
    if n < 128 {
        out.push(n as u8);
        proof {
            assert(final(out)@ =~= old(out)@ + spec_varint(n as nat));
        }
    } else {
        out.push((128 + (n % 128)) as u8);
        push_varint(out, n / 128);
        proof {
            assert(final(out)@ =~= old(out)@ + spec_varint(n as nat));
        }
    }
}

/// Serializes a message into its wire form.
pub fn encode_msg(msg: &Msg) -> (r: Vec<u8>)
    ensures
        r@ == spec_encode_msg(msg@),
{
    let mut out: Vec<u8> = Vec::new();
    match msg {
        Msg::Text(s) => {
            out.push(0);
            let mut payload = s.as_str().as_bytes_vec();
            push_varint(&mut out, payload.len());
            out.append(&mut payload);
            proof {
                assert(out@ =~= spec_encode_msg(msg@));
            }
        },
        Msg::Binary(b) => {
            out.push(1);
            push_varint(&mut out, b.len());
            let ghost before = out@;
            out.extend_from_slice(b.as_slice());
            proof {
                assert(out@ =~= before + b@);
                assert(out@ =~= spec_encode_msg(msg@));
            }
        },
    }
    out
}

/// Parses a varint at `pos`, mirroring `spec_parse_varint`; a value that
/// does not fit the machine's word gives `None`, as no message whose
/// length fits memory carries one.
fn parse_varint(bytes: &[u8], pos: usize) -> (r: Option<(usize, usize)>)
    requires
        pos <= bytes@.len(),
    ensures
        match spec_parse_varint(bytes@, pos as int) {
            Some(vp) => {
                &&& vp.0 <= usize::MAX ==> r == Some((vp.0 as usize, vp.1 as usize))
                &&& vp.0 > usize::MAX ==> r is None
                &&& pos < vp.1 <= bytes@.len()
            },
            None => r is None,
        },
    decreases bytes@.len() - pos,
{
    if pos >= bytes.len() {
        return None;
    }
    let b = bytes[pos];
    if b < 128 {
        return Some((b as usize, pos + 1));
    }
    let low = (b - 128) as usize;
    match parse_varint(bytes, pos + 1) {
        Some((v, p)) => {
            if v == 0 {
                None
            } else if v > (usize::MAX - low) / 128 {
                proof {
                    assert(low + 128 * (v as int) > usize::MAX) by (nonlinear_arith)
                        requires
                            0 <= low < 128,
                            v > (usize::MAX - low) / 128,
                            v >= 1,
                    ;
                }
                None
            } else {
                proof {
                    assert(low + 128 * (v as int) <= usize::MAX) by (nonlinear_arith)
                        requires
                            0 <= low < 128,
                            1 <= v <= (usize::MAX - low) / 128,
                    ;
                }
                Some((low + 128 * v, p))
            }
        },
        None => None,
    }
}

/// Relies on `String::from_utf8`: it succeeds exactly on valid UTF-8 and
/// decodes it.
#[verifier::external_body]
fn bytes_to_string(bytes: Vec<u8>) -> (r: Option<String>)
    ensures
        r is Some <==> valid_utf8(bytes@),
        r matches Some(s) ==> s@ == decode_utf8(bytes@),
{
    String::from_utf8(bytes).ok()
}

/// Deserializes a wire message, mirroring `spec_decode_msg`: anything but
/// the exact wire form of some message is rejected.
pub fn decode_msg(bytes: &[u8]) -> (r: Option<Msg>)
    ensures
        match r {
            Some(m) => spec_decode_msg(bytes@) == Some(m@),
            None => spec_decode_msg(bytes@) is None,
        },
{
    let n = bytes.len();
    if n == 0 {
        return None;
    }
    let tag = bytes[0];
    if tag > 1 {
        return None;
    }
    let (len, p) = match parse_varint(bytes, 1) {
        Some(vp) => vp,
        None => {
            return None;
        },
    };
    if len != n - p {
        return None;
    }
    let payload = vstd::slice::slice_subrange(bytes, p, n);
    if tag == 0 {
        match bytes_to_string(vstd::slice::slice_to_vec(payload)) {
            Some(s) => Some(Msg::Text(s)),
            None => None,
        }
    } else {
        Some(Msg::Binary(vstd::slice::slice_to_vec(payload)))
    }
}

/// The relay channel carrying a topic's messages: the topic under the
/// relay's namespace prefix.
pub fn channel_for_topic(topic: &str) -> (r: String)
    ensures
        r@ == "atlas/"@ + topic@,
{
    let mut s: String = "atlas/".to_owned();
    s.append(topic);
    s
}

/// The topic a relay channel carries, if the channel lies in the relay's
/// namespace.
pub fn topic_from_channel(channel: &str) -> (r: Option<String>)
    ensures
        match r {
            Some(t) => channel@ == "atlas/"@ + t@,
            None => !(channel@.len() >= "atlas/"@.len() && channel@.subrange(
                0,
                "atlas/"@.len() as int,
            ) == "atlas/"@),
        },
{
    let prefix = "atlas/";
    let plen = prefix.unicode_len();
    let clen = channel.unicode_len();
    if clen < plen {
        return None;
    }
    let head = channel.substring_char(0, plen);
    if !str_eq(head, prefix) {
        return None;
    }
    let rest = channel.substring_char(plen, clen);
    proof {
        assert(channel@ =~= "atlas/"@ + rest@);
    }
    Some(rest.to_owned())
}

/// Round trip of the channel naming: the channel built for a topic
/// resolves back to exactly that topic.
pub proof fn lemma_channel_round_trip(topic: Seq<char>, channel: Seq<char>, resolved: Seq<char>)
    requires
        channel == "atlas/"@ + topic,
        channel == "atlas/"@ + resolved,
    ensures
        resolved == topic,
{
    assert(topic =~= channel.subrange("atlas/"@.len() as int, channel.len() as int));
    assert(resolved =~= channel.subrange("atlas/"@.len() as int, channel.len() as int));
}

/// The presence marker key for a user id.
pub fn presence_key(user_id: &str) -> (r: String)
    ensures
        r@ == "atlas/connected/"@ + user_id@,
{
    let mut s: String = "atlas/connected/".to_owned();
    s.append(user_id);
    s
}

/// What the distributed tracker does to the shared store on a status
/// update.
pub enum RelayStateAction {
    /// Write the presence marker with this time-to-live, in seconds.
    SetExpiring { key: String, ttl_seconds: u64 },
    /// Delete the presence marker.
    Remove { key: String },
}

/// The distributed tracker's decision for a status update: a connect
/// writes an expiring presence marker for the user, a disconnect deletes
/// it.  A crashed process's users therefore appear connected only until
/// the marker lapses.
pub fn relay_status_action(user_id: &str, connected: bool) -> (r: RelayStateAction)
    ensures
        connected ==> (r matches RelayStateAction::SetExpiring { key, ttl_seconds } && key@
            == "atlas/connected/"@ + user_id@ && ttl_seconds == CONNECTION_STATE_TTL_SECONDS),
        !connected ==> (r matches RelayStateAction::Remove { key } && key@ == "atlas/connected/"@
            + user_id@),
{
    let key = presence_key(user_id);
    if connected {
        RelayStateAction::SetExpiring { key, ttl_seconds: CONNECTION_STATE_TTL_SECONDS }
    } else {
        RelayStateAction::Remove { key }
    }
}

} // verus!
