//! Audio helpers: 16-bit PCM samples carried as base64 text, and mono to
//! stereo upmixing.
use vstd::prelude::*;

use crate::bytes::{base64_decode, base64_decoding};
use crate::error::Error;

verus! {

/// Turns mono samples into interleaved stereo ones.
pub trait UpmixMonoToStereo {
    fn upmix_mono_to_stereo(&self) -> Vec<i16>;
}

/// Each sample of `s` twice in a row: left, then right.
pub open spec fn upmixed(s: Seq<i16>) -> Seq<i16> {
    Seq::new(2 * s.len(), |i: int| s[i / 2])
}

impl UpmixMonoToStereo for Vec<i16> {
    fn upmix_mono_to_stereo(&self) -> (r: Vec<i16>)
        ensures
            r@ == upmixed(self@),
    {
        let mut out: Vec<i16> = Vec::new();
        let mut i: usize = 0;
        while i < self.len()
            invariant
                i <= self@.len(),
                out@ == upmixed(self@.take(i as int)),
            decreases self@.len() - i,
        {
            out.push(self[i]);
            out.push(self[i]);
            proof {
                assert(out@ =~= upmixed(self@.take(i + 1)));
            }
            i = i + 1;
        }
        proof {
            assert(self@.take(self@.len() as int) =~= self@);
        }
        out
    }
}

/// The 16-bit sample whose low byte is `lo` and high byte is `hi`, in two's
/// complement.
pub open spec fn le_sample(lo: u8, hi: u8) -> i16 {
    let u = lo + 256 * hi;
    (if u >= 32768 { u - 65536 } else { u }) as i16
}

/// The sample two bytes make in the byte order of the machine running the
/// code (`vstd::endian::endianness`), which is one order for the whole run.
pub open spec fn native_sample(a: u8, b: u8) -> i16 {
    match vstd::endian::endianness() {
        vstd::endian::Endian::Little => le_sample(a, b),
        vstd::endian::Endian::Big => le_sample(b, a),
    }
}

/// The samples of a byte sequence of even length: bytes `2i` and `2i + 1`
/// make sample `i`.
pub open spec fn pcm_of(bytes: Seq<u8>) -> Seq<i16> {
    Seq::new(bytes.len() / 2, |i: int| native_sample(bytes[2 * i], bytes[2 * i + 1]))
}

/// `bytemuck::cast::<[u8; 2], i16>`: the two bytes reinterpreted as one
/// sample, which reads them in the machine's byte order.
#[verifier::external_body]
fn sample_of(pair: [u8; 2]) -> (r: i16)
    ensures
        r == native_sample(pair[0], pair[1]),
{
    bytemuck::cast::<[u8; 2], i16>(pair)
}

/// Reads the bytes two at a time as 16-bit samples.
fn pcm_samples(bytes: &[u8]) -> (r: Vec<i16>)
    requires
        bytes@.len() % 2 == 0,
    ensures
        r@ == pcm_of(bytes@),
{
    let mut out: Vec<i16> = Vec::new();
    let mut j: usize = 0;
    while j < bytes.len()
        invariant
            j <= bytes@.len(),
            j % 2 == 0,
            bytes@.len() % 2 == 0,
            out@.len() * 2 == j,
            forall|k: int| 0 <= k < out@.len() ==> #[trigger] out@[k] == native_sample(bytes@[2 * k], bytes@[2 * k + 1]),
        decreases bytes@.len() - j,
    {
        let pair: [u8; 2] = [bytes[j], bytes[j + 1]];
        let x = sample_of(pair);
        proof {
            assert(pair[0] == bytes@[j as int] && pair[1] == bytes@[j + 1]);
        }
        out.push(x);
        j = j + 2;
    }
    assert(out@ =~= pcm_of(bytes@));
    out
}

/// The text decodes to whole samples: either base64 rejects it, or it gives
/// an even number of bytes.
pub open spec fn pcm_decodable(text: Seq<char>) -> bool {
    base64_decoding(text) matches Some(b) ==> b.len() % 2 == 0
}

/// Decodes standard base64 text into 16-bit PCM samples. Text that base64
/// rejects gives `Error::Base64DecodeError`; text that decodes to an odd
/// number of bytes, half a sample at the end, is not accepted.
pub fn decode_base64_pcm(base64_data: &str) -> (r: Result<Vec<i16>, Error>)
    requires
        pcm_decodable(base64_data@),
    ensures
        r is Err <==> base64_decoding(base64_data@) is None,
        r is Err ==> r == Err::<Vec<i16>, Error>(Error::Base64DecodeError),
        r matches Ok(v) ==> v@ == pcm_of(base64_decoding(base64_data@)->0),
{
    match base64_decode(base64_data) {
        Some(bytes) => Ok(pcm_samples(bytes.as_slice())),
        None => Err(Error::Base64DecodeError),
    }
}

/// As `decode_base64_pcm`, for any text: `None` where the decoded bytes would
/// end in half a sample.
pub fn decode_base64_pcm_checked(base64_data: &str) -> (r: Option<Result<Vec<i16>, Error>>)
    ensures
        r is None <==> !pcm_decodable(base64_data@),
        r matches Some(res) ==> {
            &&& res is Err <==> base64_decoding(base64_data@) is None
            &&& res is Err ==> res == Err::<Vec<i16>, Error>(Error::Base64DecodeError)
            &&& res matches Ok(v) ==> v@ == pcm_of(base64_decoding(base64_data@)->0)
        },
{
    match base64_decode(base64_data) {
        Some(bytes) => {
            if bytes.len() % 2 != 0 {
                return None;
            }
        },
        None => {},
    }
    Some(decode_base64_pcm(base64_data))
}

} // verus!
