//! Framing of XCMP messages: a one-byte format tag followed by versioned XCM
//! messages laid end to end.
use vstd::prelude::*;

verus! {

/// The format tag that starts every XCMP message.
#[derive(Clone, Copy, Debug, PartialEq, Eq, Structural)]
pub enum XcmpMessageFormat {
    /// Encoded `VersionedXcm` messages, concatenated.
    ConcatenatedVersionedXcm,
    /// Encoded `Vec<u8>` blobs, concatenated.
    ConcatenatedEncodedBlob,
    /// One or more channel control signals.
    Signals,
}

/// The format tag that the SCALE encoding of `XcmpMessageFormat` puts in one
/// byte: its variant index 0, 1 or 2. Any other byte, or no byte, is no format.
pub open spec fn format_of_byte(b: u8) -> Option<XcmpMessageFormat> {
    if b == 0 {
        Some(XcmpMessageFormat::ConcatenatedVersionedXcm)
    } else if b == 1 {
        Some(XcmpMessageFormat::ConcatenatedEncodedBlob)
    } else if b == 2 {
        Some(XcmpMessageFormat::Signals)
    } else {
        None
    }
}

/// The format tag at the start of `data`, if there is a valid one.
pub open spec fn leading_format(data: Seq<u8>) -> Option<XcmpMessageFormat> {
    if data.len() == 0 {
        None
    } else {
        format_of_byte(data[0])
    }
}

/// Law: the format tag is the first byte alone. Whatever bytes follow it,
/// a message starting with 0 is `ConcatenatedVersionedXcm`, with 1
/// `ConcatenatedEncodedBlob`, with 2 `Signals`, and with any other byte (or
/// no byte at all) has no format.
pub proof fn law_format_is_first_byte(b: u8, rest: Seq<u8>)
    ensures
        leading_format(seq![b] + rest) == leading_format(seq![b]),
        b == 0 ==> leading_format(seq![b] + rest) == Some(XcmpMessageFormat::ConcatenatedVersionedXcm),
        b == 1 ==> leading_format(seq![b] + rest) == Some(XcmpMessageFormat::ConcatenatedEncodedBlob),
        b == 2 ==> leading_format(seq![b] + rest) == Some(XcmpMessageFormat::Signals),
        b > 2 ==> leading_format(seq![b] + rest) is None,
        leading_format(Seq::<u8>::empty()) is None,
{
    assert((seq![b] + rest)[0] == b);
}

/// Decodes the format tag at the start of an XCMP message, as the SCALE
/// decoder derived for `XcmpMessageFormat` (of polkadot-parachain-primitives)
/// does: one byte, the variant index.
pub fn decode_xcmp_format(data: &[u8]) -> (r: Option<XcmpMessageFormat>)
    ensures
        r == leading_format(data@),
{
    if data.len() == 0 {
        None
    } else {
        let b = data[0];
        if b == 0 {
            Some(XcmpMessageFormat::ConcatenatedVersionedXcm)
        } else if b == 1 {
            Some(XcmpMessageFormat::ConcatenatedEncodedBlob)
        } else if b == 2 {
            Some(XcmpMessageFormat::Signals)
        } else {
            None
        }
    }
}

/// What one SCALE decode of a `VersionedXcm` from the front of `bytes` gives:
/// whether a message decoded, and how many bytes the decoder left unread
/// (after a failure too, the decoder stops where it gave up).
pub uninterp spec fn versioned_xcm_attempt(bytes: Seq<u8>) -> (bool, usize);

/// Calls `<VersionedXcm<()> as Decode>::decode` on the bytes of `data` from
/// `start` on, and reports whether it decoded and how many bytes it left
/// unread. The decoding does not depend on the runtime call type (the call is
/// kept as raw bytes), so this frames messages of any runtime. Claimed: the
/// result is the name `versioned_xcm_attempt` of those bytes; the decoder
/// reads the version byte first, so on bytes that are not empty it reads at
/// least one byte, whether it succeeds or not, and on no bytes it fails
/// without reading; and it never reads more bytes than there are.
/// Machine limit: the derived decoder has no depth limit and recurses once per
/// nested message, so an input nested deeply enough to exhaust the thread's
/// stack aborts the process instead of returning; nothing here bounds that
/// depth.
#[verifier::external_body]
fn decode_versioned_xcm_from(data: &[u8], start: usize) -> (r: (bool, usize))
    requires
        start <= data@.len(),
    ensures
        r == versioned_xcm_attempt(data@.subrange(start as int, data@.len() as int)),
        r.1 <= data@.len() - start,
        start < data@.len() ==> r.1 < data@.len() - start,
        start == data@.len() ==> !r.0 && r.1 == 0,
{
    let mut rest: &[u8] = &data[start..];
    let decoded = <staging_xcm::VersionedXcm<()> as parity_scale_codec::Decode>::decode(&mut rest).is_ok();
    (decoded, rest.len())
}

/// Whether a `VersionedXcm` decodes from the front of `data` (trailing bytes
/// are left unread and allowed).
pub fn versioned_xcm_decodes(data: &[u8]) -> (r: bool)
    ensures
        r == versioned_xcm_attempt(data@).0,
        data@.len() == 0 ==> !r,
{
    let r = decode_versioned_xcm_from(data, 0);
    assert(data@.subrange(0, data@.len() as int) =~= data@);
    r.0
}

/// One decode attempt in an XCMP message: the bytes `start..end` that the
/// decoder read, and whether they decoded to a versioned XCM message.
#[derive(Clone, Copy, Debug, PartialEq, Eq, Structural)]
pub struct Fragment {
    pub start: usize,
    pub end: usize,
    pub decoded: bool,
}

/// The decode attempts that go through `bytes` from `start` to the end, each
/// one starting where the previous one stopped, as the message handler makes
/// them. An attempt that fails still moves on past the bytes it read.
pub open spec fn frames_from(bytes: Seq<u8>, start: nat) -> Seq<Fragment>
    decreases bytes.len() - start,
{
    if start >= bytes.len() {
        Seq::empty()
    } else {
        let attempt = versioned_xcm_attempt(bytes.subrange(start as int, bytes.len() as int));
        let end: int = bytes.len() - attempt.1;
        if end <= start {
            Seq::empty()
        } else {
            seq![Fragment { start: start as usize, end: end as usize, decoded: attempt.0 }]
                + frames_from(bytes, end as nat)
        }
    }
}

/// `f` covers `start..end` without gap or overlap: every fragment is
/// non-empty, the first starts at `start`, each ends where the next starts,
/// and the last ends at `end`.
pub open spec fn covers(f: Seq<Fragment>, start: int, end: int) -> bool {
    &&& f.len() == 0 ==> start == end
    &&& f.len() > 0 ==> f[0].start == start && f.last().end == end
    &&& forall|i: int| 0 <= i < f.len() ==> #[trigger] f[i].start < f[i].end
    &&& forall|i: int| 0 <= i < f.len() - 1 ==> #[trigger] f[i].end == f[i + 1].start
}

/// Every fragment of `f` is what decoding `bytes` from its start reads and gives.
pub open spec fn attempts_match(bytes: Seq<u8>, f: Seq<Fragment>) -> bool {
    forall|i: int|
        0 <= i < f.len() ==> {
            let attempt = versioned_xcm_attempt(bytes.subrange(#[trigger] f[i].start as int, bytes.len() as int));
            &&& f[i].decoded == attempt.0
            &&& f[i].end == bytes.len() - attempt.1
        }
}

/// `f` covers the bytes of `data` after its one-byte format tag.
pub open spec fn payload_covered(data: Seq<u8>, f: Seq<Fragment>) -> bool {
    covers(f, 1, data.len() as int)
}

/// The decode attempts of an XCMP message: those after the format tag.
pub open spec fn xcmp_fragments(data: Seq<u8>) -> Seq<Fragment> {
    frames_from(data, 1)
}

/// Goes through `data[start..]` with decode attempts, each from where the
/// previous one stopped. The attempts cover the bytes without gap or overlap
/// and each is what the decoder reads and gives there.
pub fn split_versioned_xcms(data: &[u8], start: usize) -> (r: Vec<Fragment>)
    requires
        start <= data@.len(),
    ensures
        r@ == frames_from(data@, start as nat),
        covers(r@, start as int, data@.len() as int),
        attempts_match(data@, r@),
{
    let len = data.len();
    let mut frames: Vec<Fragment> = Vec::new();
    let mut pos = start;
    assert(frames@ + frames_from(data@, pos as nat) =~= frames_from(data@, pos as nat));
    while pos < len
        invariant
            len == data@.len(),
            start <= pos <= len,
            frames_from(data@, start as nat) == frames@ + frames_from(data@, pos as nat),
            covers(frames@, start as int, pos as int),
            attempts_match(data@, frames@),
        decreases len - pos,
    {
        let (decoded, rest) = decode_versioned_xcm_from(data, pos);
        let end = len - rest;
        let frag = Fragment { start: pos, end, decoded };
        proof {
            let tail = frames_from(data@, end as nat);
            assert(frames_from(data@, pos as nat) == seq![frag] + tail);
            assert(frames@ + (seq![frag] + tail) =~= frames@.push(frag) + tail);
            let g = frames@.push(frag);
            assert forall|i: int| 0 <= i < g.len() - 1 implies #[trigger] g[i].end == g[i + 1].start by {
                if i < frames@.len() - 1 {
                    assert(g[i] == frames@[i] && g[i + 1] == frames@[i + 1]);
                } else {
                    assert(g[i] == frames@.last());
                }
            }
            assert forall|i: int| 0 <= i < g.len() implies #[trigger] g[i].start < g[i].end by {
                if i < frames@.len() {
                    assert(g[i] == frames@[i]);
                }
            }
            assert forall|i: int| 0 <= i < g.len() implies {
                let attempt = versioned_xcm_attempt(data@.subrange(#[trigger] g[i].start as int, data@.len() as int));
                &&& g[i].decoded == attempt.0
                &&& g[i].end == data@.len() - attempt.1
            } by {
                if i < frames@.len() {
                    assert(g[i] == frames@[i]);
                }
            }
        }
        frames.push(frag);
        pos = end;
    }
    assert(frames@ + Seq::<Fragment>::empty() =~= frames@);
    frames
}

/// The decode attempts of the XCMP message `data`, after its format tag.
/// The handler refuses a message without a known format tag (the caller stops
/// there, as the message handler does); the kind of format is not looked at
/// further: every known tag is followed by concatenated messages. Each
/// fragment that decoded is handed on; one that did not is skipped.
pub fn xcmp_message_fragments(data: &[u8]) -> (r: Vec<Fragment>)
    requires
        leading_format(data@) is Some,
    ensures
        r@ == xcmp_fragments(data@),
        payload_covered(data@, r@),
        attempts_match(data@, r@),
{
    split_versioned_xcms(data, 1)
}

} // verus!
