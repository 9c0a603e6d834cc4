//! Pair fingerprint derived from the TCP handshake's two nonces.
//!
//! Both peers compute identical bytes by hashing `(client_nonce, server_nonce)`
//! in the same order. Guards against pairing with the wrong peer on the same
//! LAN — not an MITM defense.
use vstd::prelude::*;
use vstd::string::*;
use vstd::arithmetic::power2::{lemma2_to64, pow2};

verus! {

/// BLAKE3 digest of `input` (the 32-byte default-length output).
pub uninterp spec fn spec_blake3_hash(input: Seq<u8>) -> Seq<u8>;

/// Calls `blake3::hash`. Trusted to return the 32-byte BLAKE3 digest of
/// `input`, which this library only names (`spec_blake3_hash`) and never
/// restates: equal inputs give equal digests.
#[verifier::external_body]
fn blake3_hash(input: &[u8]) -> (digest: [u8; 32])
    ensures
        digest@ == spec_blake3_hash(input@),
{
    *blake3::hash(input).as_bytes()
}

/// Calls `String::push`, which appends one character.
#[verifier::external_body]
pub(crate) fn push_char(s: &mut String, c: char)
    ensures
        final(s)@ == old(s)@.push(c),
{
    s.push(c)
}

/// Domain-separation tag hashed in front of the nonces.
pub open spec fn pair_domain_tag() -> Seq<u8> {
    "flowcontrol-pair-v1".spec_bytes()
}

/// Exactly what is hashed: the tag, then the client's nonce, then the server's.
pub open spec fn pair_hash_input(client_nonce: Seq<u8>, server_nonce: Seq<u8>) -> Seq<u8> {
    pair_domain_tag() + client_nonce + server_nonce
}

/// The fingerprint: the first five bytes of the digest of the hash input.
pub open spec fn spec_derive(client_nonce: Seq<u8>, server_nonce: Seq<u8>) -> Seq<u8> {
    spec_blake3_hash(pair_hash_input(client_nonce, server_nonce)).take(5)
}

fn append_bytes(out: &mut Vec<u8>, bytes: &[u8])
    ensures
        final(out)@ == old(out)@ + bytes@,
{
    let ghost start = out@;
    let mut i: usize = 0;
    while i < bytes.len()
        invariant
            i <= bytes@.len(),
            out@ == start + bytes@.take(i as int),
        decreases bytes@.len() - i,
    {
        out.push(bytes[i]);
        i = i + 1;
        assert(bytes@.take(i as int) =~= bytes@.take(i - 1) + seq![bytes@[i - 1]]);
    }
    assert(bytes@.take(i as int) =~= bytes@);
}

/// Derive a 5-byte fingerprint from the TCP connection's shared nonces.
/// Both peers MUST call this with the same (client_nonce, server_nonce)
/// ordering to produce the same bytes.
pub fn derive(client_nonce: &[u8; 16], server_nonce: &[u8; 16]) -> (fp: [u8; 5])
    ensures
        fp@ == spec_derive(client_nonce@, server_nonce@),
{
    let mut input: Vec<u8> = Vec::new();
    append_bytes(&mut input, "flowcontrol-pair-v1".as_bytes());
    append_bytes(&mut input, client_nonce.as_slice());
    append_bytes(&mut input, server_nonce.as_slice());
    let digest = blake3_hash(input.as_slice());
    let fp = [digest[0], digest[1], digest[2], digest[3], digest[4]];
    assert(fp@ =~= digest@.take(5));
    fp
}

/// The 31 display characters: digits and capitals without 0, 1, I, L, O.
pub open spec fn alphabet() -> Seq<char> {
    seq![
        '2', '3', '4', '5', '6', '7', '8', '9', 'A', 'B', 'C', 'D', 'E', 'F', 'G', 'H', 'J', 'K',
        'M', 'N', 'P', 'Q', 'R', 'S', 'T', 'U', 'V', 'W', 'X', 'Y', 'Z',
    ]
}

/// A chunk of the fingerprint read as a 16-bit big-endian number; a trailing
/// single byte is the high byte, the low byte being zero.
pub open spec fn chunk_value(hi: u8, lo: u8) -> int {
    hi * 256 + lo
}

/// The 5-bit group of `n` that starts at bit `shift`.
pub open spec fn group(n: int, shift: nat) -> int {
    (n / (pow2(shift) as int)) % 32
}

/// The groups of every chunk: bits 11, 6 and 1 of a two-byte chunk, bits 11
/// and 6 of the trailing one-byte chunk.
pub open spec fn group_indices(fp: Seq<u8>) -> Seq<int> {
    let n0 = chunk_value(fp[0], fp[1]);
    let n1 = chunk_value(fp[2], fp[3]);
    let n2 = chunk_value(fp[4], 0);
    seq![group(n0, 11), group(n0, 6), group(n0, 1), group(n1, 11), group(n1, 6), group(n1, 1), group(n2, 11), group(n2, 6)]
}

/// Every group names a character of the alphabet. A group equal to 31 lies
/// one past the alphabet's end; `render` is not defined on such bytes.
pub open spec fn spec_renderable(fp: Seq<u8>) -> bool {
    forall|k: int| 0 <= k < 8 ==> #[trigger] group_indices(fp)[k] < 31
}

/// The displayed form: three groups separated by dashes, e.g. "23A-BC4-5D".
pub open spec fn spec_render(fp: Seq<u8>) -> Seq<char> {
    let g = group_indices(fp);
    seq![
        alphabet()[g[0]], alphabet()[g[1]], alphabet()[g[2]], '-',
        alphabet()[g[3]], alphabet()[g[4]], alphabet()[g[5]], '-',
        alphabet()[g[6]], alphabet()[g[7]],
    ]
}

fn chunk_groups(hi: u8, lo: u8) -> (g: (usize, usize, usize))
    ensures
        g.0 == group(chunk_value(hi, lo), 11),
        g.1 == group(chunk_value(hi, lo), 6),
        g.2 == group(chunk_value(hi, lo), 1),
{
    proof {
        lemma2_to64();
    }
    let n: u16 = ((hi as u16) << 8) | lo as u16;
    assert(n == hi as u16 * 256 + lo as u16) by (bit_vector)
        requires
            n == ((hi as u16) << 8) | lo as u16,
    ;
    let a: u16 = (n >> 11) & 0x1F;
    let b: u16 = (n >> 6) & 0x1F;
    let c: u16 = (n >> 1) & 0x1F;
    assert(a == (n / 2048) % 32) by (bit_vector)
        requires
            a == (n >> 11) & 0x1F,
    ;
    assert(b == (n / 64) % 32) by (bit_vector)
        requires
            b == (n >> 6) & 0x1F,
    ;
    assert(c == (n / 2) % 32) by (bit_vector)
        requires
            c == (n >> 1) & 0x1F,
    ;
    (a as usize, b as usize, c as usize)
}

/// Whether every group of `fp` names a character of the alphabet.
pub fn is_renderable(fp: &[u8; 5]) -> (b: bool)
    ensures
        b == spec_renderable(fp@),
{
    let (a0, a1, a2) = chunk_groups(fp[0], fp[1]);
    let (b0, b1, b2) = chunk_groups(fp[2], fp[3]);
    let (c0, c1, _c2) = chunk_groups(fp[4], 0);
    let ghost g = group_indices(fp@);
    assert(g[0] == a0 && g[1] == a1 && g[2] == a2 && g[3] == b0 && g[4] == b1 && g[5] == b2
        && g[6] == c0 && g[7] == c1);
    a0 < 31 && a1 < 31 && a2 < 31 && b0 < 31 && b1 < 31 && b2 < 31 && c0 < 31 && c1 < 31
}

/// Render "23A-BC4-5D" style string for the UI.
/// Crockford-ish alphabet: no I/L/O/0/1 to avoid ambiguity.
pub fn render(fp: &[u8; 5]) -> (s: String)
    requires
        spec_renderable(fp@),
    ensures
        s@ == spec_render(fp@),
{
    let letters: [char; 31] = [
        '2', '3', '4', '5', '6', '7', '8', '9', 'A', 'B', 'C', 'D', 'E', 'F', 'G', 'H', 'J', 'K',
        'M', 'N', 'P', 'Q', 'R', 'S', 'T', 'U', 'V', 'W', 'X', 'Y', 'Z',
    ];
    assert(letters@ =~= alphabet());
    let ghost g = group_indices(fp@);
    assert(0 <= g[0] < 31 && 0 <= g[1] < 31 && 0 <= g[2] < 31 && 0 <= g[3] < 31);
    assert(0 <= g[4] < 31 && 0 <= g[5] < 31 && 0 <= g[6] < 31 && 0 <= g[7] < 31);
    let (a0, a1, a2) = chunk_groups(fp[0], fp[1]);
    let (b0, b1, b2) = chunk_groups(fp[2], fp[3]);
    let (c0, c1, _c2) = chunk_groups(fp[4], 0);
    let mut out = String::new();
    push_char(&mut out, letters[a0]);
    push_char(&mut out, letters[a1]);
    push_char(&mut out, letters[a2]);
    push_char(&mut out, '-');
    push_char(&mut out, letters[b0]);
    push_char(&mut out, letters[b1]);
    push_char(&mut out, letters[b2]);
    push_char(&mut out, '-');
    push_char(&mut out, letters[c0]);
    push_char(&mut out, letters[c1]);
    assert(out@ =~= spec_render(fp@));
    out
}

/// The displayed fingerprint has ten characters: two dashes, at positions 3
/// and 7, separate three groups whose characters all come from the
/// alphabet, which has no dash and none of the look-alikes 0, 1, I, L, O.
pub proof fn lemma_render_layout(fp: Seq<u8>)
    requires
        fp.len() == 5,
        spec_renderable(fp),
    ensures
        spec_render(fp).len() == 10,
        spec_render(fp)[3] == '-',
        spec_render(fp)[7] == '-',
        forall|k: int| 0 <= k < 10 && k != 3 && k != 7 ==> alphabet().contains(#[trigger] spec_render(fp)[k]),
        !alphabet().contains('-'),
        !alphabet().contains('0') && !alphabet().contains('1') && !alphabet().contains('I')
            && !alphabet().contains('L') && !alphabet().contains('O'),
{
    let g = group_indices(fp);
    assert forall|k: int| 0 <= k < 8 implies 0 <= #[trigger] g[k] < 31 by {
        assert(g[k] < 31);
    }
    let r = spec_render(fp);
    assert forall|k: int| 0 <= k < 10 && k != 3 && k != 7 implies alphabet().contains(#[trigger] r[k]) by {
        let j: int = if k < 3 { g[k] } else if k < 7 { g[k - 1] } else { g[k - 2] };
        assert(0 <= j < 31);
        assert(alphabet()[j] == r[k]);
    }
    assert forall|c: char| c == '-' || c == '0' || c == '1' || c == 'I' || c == 'L' || c == 'O' implies !alphabet().contains(c) by {
        if alphabet().contains(c) {
            let j = choose|j: int| 0 <= j < alphabet().len() && alphabet()[j] == c;
            assert(alphabet()[j] != c);
        }
    }
}

} // verus!
