//! IEC 60870-5-104 frame codec.
//!
//! Turns a growing byte stream into APDUs and back. The decoder buffers
//! partial frames, discards garbage before a start byte and resynchronizes
//! on an out-of-range length byte without ever raising a fatal error for a
//! single bad byte.

use vstd::prelude::*;

verus! {

use crate::apci::{
    apci_wf,
    spec_control_bytes,
    spec_parse_control,
    Apci,
    UFunction,
    MAX_APDU_LENGTH,
    MIN_APDU_LENGTH,
    START_BYTE,
};
use crate::asdu::{spec_asdu_bytes, spec_header_from, Asdu};
use crate::cot::spec_cot_name;
use crate::error::Iec104Error;
use crate::text::dec_str;
use crate::text::fmt_u16;
use crate::type_id::spec_standard_name;

/// An IEC 104 APDU (Application Protocol Data Unit): the APCI header and,
/// for I-frames, an ASDU.
#[derive(Debug, Clone, PartialEq, Eq)]
pub struct Apdu {
    /// APCI (Application Protocol Control Information)
    pub apci: Apci,
    /// ASDU (Application Service Data Unit) - only present in I-frames
    pub asdu: Option<Asdu>,
}

/// The payload bytes that follow the six header bytes of an APDU on the
/// wire: the ASDU's bytes, or nothing.
pub open spec fn spec_apdu_payload(ap: Apdu) -> Seq<u8> {
    match ap.asdu {
        Some(a) => spec_asdu_bytes(a),
        None => Seq::empty(),
    }
}

/// The full wire bytes of an APDU: start byte, length byte, four control
/// bytes, then the payload.
pub open spec fn spec_apdu_wire(ap: Apdu) -> Seq<u8> {
    seq![0x68u8, ((4 + spec_apdu_payload(ap).len()) as u8)] + spec_control_bytes(ap.apci)
        + spec_apdu_payload(ap)
}

/// An APDU that the codec can write and read back identically: sequence
/// numbers in range; an I-frame carries either no ASDU or one in raw form
/// (objects unparsed) that fits a frame; S- and U-frames carry none.
pub open spec fn apdu_wf(ap: Apdu) -> bool {
    &&& apci_wf(ap.apci)
    &&& match ap.apci {
        Apci::IFrame { .. } => match ap.asdu {
            Some(a) => a.objects@.len() == 0 && a.header.vsq.count <= 127 && 6 + a.raw_data@.len()
                <= 249,
            None => true,
        },
        _ => ap.asdu is None,
    }
}

/// Extract the first complete frame of a byte stream, after discarding
/// garbage before the first start byte and resynchronizing past start bytes
/// followed by an out-of-range length. Yields the frame bytes and the rest
/// of the stream, or `None` when no complete frame is buffered yet.
pub open spec fn spec_extract(s: Seq<u8>) -> Option<(Seq<u8>, Seq<u8>)>
    decreases s.len(),
{
    if s.len() == 0 {
        None
    } else if s[0] != 0x68 {
        spec_extract(s.skip(1))
    } else if s.len() < 2 {
        None
    } else if s[1] < 4 || s[1] > 253 {
        spec_extract(s.skip(1))
    } else if s.len() < 2 + s[1] {
        None
    } else {
        Some((s.take(2 + s[1] as int), s.skip(2 + s[1] as int)))
    }
}

/// What remains buffered after a decode call that found no complete frame:
/// garbage and malformed starts are consumed, a partial frame is kept.
pub open spec fn spec_residue(s: Seq<u8>) -> Seq<u8>
    decreases s.len(),
{
    if s.len() == 0 {
        s
    } else if s[0] != 0x68 {
        spec_residue(s.skip(1))
    } else if s.len() < 2 {
        s
    } else if s[1] < 4 || s[1] > 253 {
        spec_residue(s.skip(1))
    } else {
        s
    }
}

/// Whether a complete frame parses: its control field is valid, and, for an
/// I-frame with a payload, the payload holds a valid ASDU header.
pub open spec fn spec_frame_ok(f: Seq<u8>) -> bool {
    match spec_parse_control(f.subrange(2, 6)) {
        None => false,
        Some(apci) => if apci is IFrame && f.len() > 6 {
            f.len() >= 12 && spec_header_from(f.skip(6)) is Some
        } else {
            true
        },
    }
}

/// Whether a complete frame parses to exactly this APDU: the control field
/// denotes its APCI, and its ASDU is the raw form of the frame's payload.
pub open spec fn frame_parses_to(f: Seq<u8>, ap: Apdu) -> bool {
    &&& spec_parse_control(f.subrange(2, 6)) == Some(ap.apci)
    &&& if ap.apci is IFrame && f.len() > 6 {
        ap.asdu matches Some(a) && Some(a.header) == spec_header_from(f.skip(6)) && a.objects@.len()
            == 0 && a.raw_data@ == f.skip(12)
    } else {
        ap.asdu is None
    }
}

impl Apdu {
    /// Create a new I-frame APDU with ASDU.
    pub fn i_frame(send_seq: u16, recv_seq: u16, asdu: Asdu) -> (r: Self)
        ensures
            r.apci == (Apci::IFrame { send_seq, recv_seq }),
            r.asdu == Some(asdu),
    {
        Self { apci: Apci::i_frame(send_seq, recv_seq), asdu: Some(asdu) }
    }

    /// Create a new S-frame APDU.
    pub fn s_frame(recv_seq: u16) -> (r: Self)
        ensures
            r.apci == (Apci::SFrame { recv_seq }),
            r.asdu is None,
    {
        Self { apci: Apci::s_frame(recv_seq), asdu: None }
    }

    /// Create a new U-frame APDU.
    pub fn u_frame(function: UFunction) -> (r: Self)
        ensures
            r.apci == (Apci::UFrame { function }),
            r.asdu is None,
    {
        Self { apci: Apci::u_frame(function), asdu: None }
    }

    /// Check if this is an I-frame.
    pub fn is_i_frame(&self) -> (r: bool)
        ensures
            r == (self.apci is IFrame),
    {
        self.apci.is_i_frame()
    }

    /// Check if this is an S-frame.
    pub fn is_s_frame(&self) -> (r: bool)
        ensures
            r == (self.apci is SFrame),
    {
        self.apci.is_s_frame()
    }

    /// Check if this is a U-frame.
    pub fn is_u_frame(&self) -> (r: bool)
        ensures
            r == (self.apci is UFrame),
    {
        self.apci.is_u_frame()
    }

    /// A human-readable description of this APDU.
    pub fn display_string(&self) -> (r: String)
        ensures
            r@ == spec_apdu_display(*self),
    {
        let mut s = self.apci.display_string();
        match &self.asdu {
            Some(asdu) => {
                s.append(" [");
                s.append(asdu.header.type_id.standard_name());
                s.append("] COT=");
                s.append(asdu.header.cot.name());
                s.append(" CA=");
                s.append(fmt_u16(asdu.header.common_address).as_str());
                proof {
                    assert(s@ =~= spec_apdu_display(*self));
                }
                s
            },
            None => s,
        }
    }
}

/// The human-readable description of an APDU: its APCI, and for an I-frame
/// the type, cause and common address of its ASDU.
pub open spec fn spec_apdu_display(ap: Apdu) -> Seq<char> {
    match ap.asdu {
        Some(a) => crate::apci::spec_display(ap.apci) + " ["@ + spec_standard_name(a.header.type_id)
            + "] COT="@ + spec_cot_name(a.header.cot) + " CA="@ + dec_str(
            a.header.common_address as int,
        ),
        None => crate::apci::spec_display(ap.apci),
    }
}

/// IEC 60870-5-104 codec: frames APDUs over a byte stream.
///
/// `decode` consumes bytes from the front of the caller's buffer; bytes of
/// an incomplete frame stay buffered until more data arrives.
#[derive(Debug, Clone, Default)]
pub struct Iec104Codec {}

/// Drop the first `n` bytes of a buffer.
fn vec_drop_front(v: &mut Vec<u8>, n: usize)
    requires
        n <= old(v)@.len(),
    ensures
        final(v)@ == old(v)@.skip(n as int),
{
    let mut tail = v.split_off(n);
    core::mem::swap(v, &mut tail);
    proof {
        assert(v@ =~= old(v)@.skip(n as int));
    }
}

impl Iec104Codec {
    /// Create a new IEC 104 codec.
    pub fn new() -> (r: Self) {
        Self {  }
    }

    /// Decode one APDU from the front of `src`, consuming its bytes.
    ///
    /// Garbage before a start byte is discarded; a start byte followed by an
    /// out-of-range length is skipped one byte at a time (tolerant resync);
    /// an incomplete frame is left buffered and `None` is returned. A
    /// complete frame is always consumed: it yields an APDU, or an error if
    /// its control field or ASDU header is invalid.
    pub fn decode(&mut self, src: &mut Vec<u8>) -> (r: Result<Option<Apdu>, Iec104Error>)
        ensures
            (spec_extract(old(src)@) matches Some(fr) ==> {
                &&& final(src)@ == fr.1
                &&& (spec_frame_ok(fr.0) ==> (r matches Ok(o) && o matches Some(ap)
                    && frame_parses_to(fr.0, ap)))
                &&& (!spec_frame_ok(fr.0) ==> r is Err)
            }),
            (spec_extract(old(src)@) is None ==> ((r matches Ok(o) && o is None) && final(src)@
                == spec_residue(old(src)@))),
            r matches Err(e) ==> (e is InvalidFrame || e is InvalidAsdu || e is UnknownTypeId
                || e is Protocol),
    {
        loop
            invariant
                spec_extract(src@) == spec_extract(old(src)@),
                spec_residue(src@) == spec_residue(old(src)@),
            decreases src@.len(),
        {
            if src.len() == 0 {
                return Ok(None);
            }
            if src[0] != START_BYTE {
                vec_drop_front(src, 1);
                continue ;
            }
            if src.len() < 2 {
                return Ok(None);
            }
            let length = src[1] as usize;
            if length < MIN_APDU_LENGTH || length > MAX_APDU_LENGTH {
                // Invalid length: skip the start byte and resynchronize.
                vec_drop_front(src, 1);
                continue ;
            }
            let total_length = 2 + length;
            if src.len() < total_length {
                return Ok(None);
            }

            // A complete frame is buffered: detach it.
            let ghost pre = src@;
            let mut frame = src.split_off(total_length);
            core::mem::swap(src, &mut frame);
            proof {
                assert(spec_extract(pre) == Some(
                    (pre.take(2 + pre[1] as int), pre.skip(2 + pre[1] as int)),
                ));
                assert(frame@ =~= pre.take(2 + pre[1] as int));
                assert(src@ =~= pre.skip(2 + pre[1] as int));
            }

            // Frame structure: [0x68] [len] [cf1] [cf2] [cf3] [cf4] [ASDU...]
            let control = vstd::slice::slice_subrange(frame.as_slice(), 2, 6);
            let apci = match Apci::parse(control) {
                Ok(a) => a,
                Err(e) => {
                    return Err(e);
                },
            };

            let asdu: Option<Asdu> = if apci.is_i_frame() && frame.len() > 6 {
                let payload = vstd::slice::slice_subrange(frame.as_slice(), 6, frame.len());
                proof {
                    assert(payload@ =~= frame@.skip(6));
                }
                match Asdu::parse(payload) {
                    Ok(a) => {
                        proof {
                            assert(a.raw_data@ =~= frame@.skip(12)) by {
                                assert(payload@.skip(6) =~= frame@.skip(12));
                            }
                        }
                        Some(a)
                    },
                    Err(e) => {
                        proof {
                            assert(!spec_frame_ok(frame@));
                        }
                        return Err(e);
                    },
                }
            } else {
                None
            };

            proof {
                assert(spec_frame_ok(frame@));
                assert(frame_parses_to(frame@, Apdu { apci, asdu }));
            }
            return Ok(Some(Apdu { apci, asdu }));
        }
    }

    /// Encode an APDU, appending its wire bytes to `dst`.
    ///
    /// Fails, leaving `dst` unchanged, when the ASDU does not fit the
    /// 253-byte frame length budget.
    pub fn encode(&mut self, item: Apdu, dst: &mut Vec<u8>) -> (r: Result<(), Iec104Error>)
        requires
            apci_wf(item.apci),
        ensures
            r is Ok <==> spec_apdu_payload(item).len() <= 249,
            r is Ok ==> final(dst)@ == old(dst)@ + spec_apdu_wire(item),
            r is Err ==> final(dst)@ == old(dst)@,
            r matches Err(e) ==> e is Codec,
    {
        let asdu_len: usize = match &item.asdu {
            Some(a) => {
                match bounded_asdu_len(a) {
                    Some(n) => n,
                    None => {
                        return Err(Iec104Error::Codec("ASDU too large".to_owned()));
                    },
                }
            },
            None => 0,
        };
        if asdu_len > MAX_APDU_LENGTH - 4 {
            return Err(Iec104Error::Codec("ASDU too large".to_owned()));
        }

        let header = item.apci.encode_header(asdu_len);
        dst.extend_from_slice(header.as_slice());

        match &item.asdu {
            Some(a) => {
                a.encode_to(dst);
            },
            None => {},
        }
        proof {
            assert(final(dst)@ =~= old(dst)@ + spec_apdu_wire(item));
        }
        Ok(())
    }
}

/// The encoded length of an ASDU, or `None` if it exceeds 255 bytes (far
/// beyond what a frame can carry).
fn bounded_asdu_len(a: &Asdu) -> (r: Option<usize>)
    ensures
        r matches Some(n) ==> n == spec_asdu_bytes(*a).len() && n <= 255,
        r is None <==> spec_asdu_bytes(*a).len() > 255,
{
    if a.objects.len() == 0 {
        if a.raw_data.len() > 249 {
            return None;
        }
        return Some(6 + a.raw_data.len());
    }
    let n = a.objects.len();
    let mut acc: usize = 6;
    let mut i: usize = 0;
    while i < n
        invariant
            n == a.objects@.len(),
            n > 0,
            i <= n,
            acc <= 255,
            acc == 6 + crate::asdu::spec_objs_bytes(a.objects@.take(i as int)).len(),
        decreases n - i,
    {
        proof {
            crate::asdu::lemma_objs_bytes_take_succ(a.objects@, i as int);
        }
        let obj = &a.objects[i];
        if obj.data.len() > 249 {
            proof {
                crate::asdu::lemma_objs_bytes_take_len_le(a.objects@, i as int + 1);
            }
            return None;
        }
        let step = 3 + obj.data.len();
        if acc > 255 - step {
            proof {
                crate::asdu::lemma_objs_bytes_take_len_le(a.objects@, i as int + 1);
            }
            return None;
        }
        acc = acc + step;
        i = i + 1;
    }
    proof {
        assert(a.objects@.take(n as int) =~= a.objects@);
    }
    Some(acc)
}

/// The framer's round trip law: every well-formed APDU that is encoded and
/// then fed back to the decoder is extracted as one whole frame, with
/// nothing left over, and parses to the very same APDU.
pub proof fn lemma_apdu_roundtrip(ap: Apdu)
    requires
        apdu_wf(ap),
    ensures
        spec_extract(spec_apdu_wire(ap)) matches Some(fr) && fr.0 == spec_apdu_wire(ap)
            && fr.1.len() == 0,
        spec_frame_ok(spec_apdu_wire(ap)),
        frame_parses_to(spec_apdu_wire(ap), ap),
{
    let w = spec_apdu_wire(ap);
    let p = spec_apdu_payload(ap);
    assert(p.len() <= 249);
    assert(w.len() == 6 + p.len());
    assert(w[0] == 0x68);
    assert(w[1] == 4 + p.len());
    assert(w.len() == 2 + w[1]);
    assert(w.take(2 + w[1] as int) =~= w);
    assert(w.skip(2 + w[1] as int) =~= Seq::<u8>::empty());
    assert(w.subrange(2, 6) =~= spec_control_bytes(ap.apci));
    crate::apci::lemma_control_roundtrip(ap.apci);
    match ap.asdu {
        Some(a) => {
            assert(w.skip(6) =~= spec_asdu_bytes(a));
            crate::asdu::lemma_header_roundtrip(a.header);
            assert(spec_asdu_bytes(a).len() >= 6);
            assert(w.skip(12) =~= spec_asdu_bytes(a).skip(6));
            assert(spec_asdu_bytes(a).skip(6) =~= a.raw_data@);
        },
        None => {
            assert(w.len() == 6);
        },
    }
}

/// Garbage tolerance law: prefixing a byte stream with bytes that hold no
/// start byte changes neither the frame the decoder extracts nor what it
/// keeps buffered.
pub proof fn lemma_garbage_prefix(g: Seq<u8>, s: Seq<u8>)
    requires
        forall|i: int| 0 <= i < g.len() ==> g[i] != 0x68,
    ensures
        spec_extract(g + s) == spec_extract(s),
        spec_residue(g + s) == spec_residue(s),
    decreases g.len(),
{
    if g.len() == 0 {
        assert(g + s =~= s);
    } else {
        assert((g + s)[0] == g[0]);
        assert((g + s).skip(1) =~= g.skip(1) + s);
        lemma_garbage_prefix(g.skip(1), s);
    }
}

/// Length validation law: on a start byte whose length byte is out of range,
/// the decoder emits nothing from that frame and consumes exactly the start
/// byte, resynchronizing on the rest.
pub proof fn lemma_bad_length_resync(s: Seq<u8>)
    requires
        s.len() >= 2,
        s[0] == 0x68,
        s[1] < 4 || s[1] > 253,
    ensures
        spec_extract(s) == spec_extract(s.skip(1)),
        spec_residue(s) == spec_residue(s.skip(1)),
{
}

} // verus!
