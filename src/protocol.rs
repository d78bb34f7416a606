//! The XOR stream cipher that obscures every payload of the protocol, with
//! and without the four-byte big-endian length header used over TCP.
use vstd::prelude::*;

verus! {

/// Seed of the key cursor at the start of every message.
pub const KEY: u8 = 0xAB;

/// The key that follows `prev`: its last byte, or the seed when it is empty.
pub open spec fn next_key(prev: Seq<u8>) -> u8 {
    if prev.len() == 0 {
        KEY
    } else {
        prev.last()
    }
}

/// Ciphertext of `plain`: each byte is XORed with the key, and the key then
/// becomes the byte just written.
pub open spec fn encrypt_seq(plain: Seq<u8>) -> Seq<u8>
    decreases plain.len(),
{
    if plain.len() == 0 {
        Seq::empty()
    } else {
        let head = encrypt_seq(plain.drop_last());
        head.push(plain.last() ^ next_key(head))
    }
}

/// Plaintext of `cipher`: each byte is XORed with the key, and the key then
/// becomes the ciphertext byte just read.
pub open spec fn decrypt_seq(cipher: Seq<u8>) -> Seq<u8>
    decreases cipher.len(),
{
    if cipher.len() == 0 {
        Seq::empty()
    } else {
        decrypt_seq(cipher.drop_last()).push(cipher.last() ^ next_key(cipher.drop_last()))
    }
}

/// The four big-endian bytes of `n`.
pub open spec fn be_bytes(n: u32) -> Seq<u8> {
    seq![
        ((n >> 24u32) & 0xff) as u8,
        ((n >> 16u32) & 0xff) as u8,
        ((n >> 8u32) & 0xff) as u8,
        (n & 0xff) as u8,
    ]
}

/// The number that the first four bytes of `b` spell in big-endian order.
pub open spec fn be_value(b: Seq<u8>) -> u32 {
    ((b[0] as u32) << 24u32) | ((b[1] as u32) << 16u32) | ((b[2] as u32) << 8u32) | (b[3] as u32)
}

/// A framed message: the plaintext length as a header, then the ciphertext.
pub open spec fn encrypt_with_header_seq(plain: Seq<u8>) -> Seq<u8> {
    be_bytes(plain.len() as u32) + encrypt_seq(plain)
}

/// What a frame decodes to: the body after the header, deciphered, and cut to
/// the length that the header gives when the body is longer.
pub open spec fn decrypt_with_header_seq(frame: Seq<u8>) -> Seq<u8> {
    let body = decrypt_seq(frame.skip(4));
    let len = be_value(frame);
    if len < body.len() {
        body.take(len as int)
    } else {
        body
    }
}

pub proof fn lemma_encrypt_len(plain: Seq<u8>)
    ensures
        encrypt_seq(plain).len() == plain.len(),
    decreases plain.len(),
{
    if plain.len() > 0 {
        lemma_encrypt_len(plain.drop_last());
    }
}

pub proof fn lemma_decrypt_len(cipher: Seq<u8>)
    ensures
        decrypt_seq(cipher).len() == cipher.len(),
    decreases cipher.len(),
{
    if cipher.len() > 0 {
        lemma_decrypt_len(cipher.drop_last());
    }
}

/// Deciphering undoes enciphering, for every byte sequence, the empty one
/// included.
pub proof fn lemma_round_trip(plain: Seq<u8>)
    ensures
        decrypt_seq(encrypt_seq(plain)) == plain,
    decreases plain.len(),
{
    if plain.len() > 0 {
        let init = plain.drop_last();
        let head = encrypt_seq(init);
        let c = encrypt_seq(plain);
        lemma_round_trip(init);
        lemma_encrypt_len(plain);
        lemma_encrypt_len(init);
        assert(c.drop_last() == head);
        let b = plain.last();
        let k = next_key(head);
        assert((b ^ k) ^ k == b) by (bit_vector);
        assert(init.push(b) == plain);
    }
}

proof fn lemma_be_round_trip(n: u32)
    ensures
        be_value(be_bytes(n)) == n,
{
    let b = be_bytes(n);
    assert(b[0] == ((n >> 24u32) & 0xff) as u8);
    assert(b[1] == ((n >> 16u32) & 0xff) as u8);
    assert(b[2] == ((n >> 8u32) & 0xff) as u8);
    assert(b[3] == (n & 0xff) as u8);
    assert(((((n >> 24u32) & 0xff) as u8 as u32) << 24u32) | ((((n >> 16u32) & 0xff) as u8 as u32)
        << 16u32) | ((((n >> 8u32) & 0xff) as u8 as u32) << 8u32) | ((n & 0xff) as u8 as u32) == n)
        by (bit_vector);
}

/// Whatever follows a framed message, its header cuts the decoded body back to
/// exactly the plaintext it framed.
pub proof fn lemma_frame_truncates_trailing(plain: Seq<u8>, extra: Seq<u8>)
    requires
        plain.len() <= u32::MAX,
    ensures
        decrypt_with_header_seq(encrypt_with_header_seq(plain) + extra) == plain,
{
    let frame = encrypt_with_header_seq(plain) + extra;
    let c = encrypt_seq(plain);
    lemma_encrypt_len(plain);
    lemma_be_round_trip(plain.len() as u32);
    assert(frame.take(4) == be_bytes(plain.len() as u32));
    assert(be_value(frame) == be_value(frame.take(4)));
    assert(frame.skip(4) == c + extra);
    assert((c + extra).take(c.len() as int) == c);
    lemma_decrypt_prefix(c + extra, c.len() as int);
    lemma_decrypt_len(c + extra);
    lemma_round_trip(plain);
}

/// Deciphering a prefix gives the prefix of the deciphered whole.
pub proof fn lemma_decrypt_prefix(cipher: Seq<u8>, n: int)
    requires
        0 <= n <= cipher.len(),
    ensures
        decrypt_seq(cipher.take(n)) == decrypt_seq(cipher).take(n),
    decreases cipher.len(),
{
    lemma_decrypt_len(cipher);
    if n < cipher.len() {
        let init = cipher.drop_last();
        assert(init.take(n) == cipher.take(n));
        lemma_decrypt_prefix(init, n);
        lemma_decrypt_len(init);
        assert(decrypt_seq(cipher).take(n) == decrypt_seq(init).take(n));
    } else {
        assert(cipher.take(n) == cipher);
        assert(decrypt_seq(cipher).take(n) == decrypt_seq(cipher));
    }
}

/// A framed message decodes to its plaintext, and is four bytes longer than
/// it.
pub proof fn lemma_framed_round_trip(plain: Seq<u8>)
    requires
        plain.len() <= u32::MAX,
    ensures
        decrypt_with_header_seq(encrypt_with_header_seq(plain)) == plain,
        encrypt_with_header_seq(plain).len() == plain.len() + 4,
{
    lemma_encrypt_len(plain);
    lemma_frame_truncates_trailing(plain, Seq::empty());
    assert(encrypt_with_header_seq(plain) + Seq::<u8>::empty() == encrypt_with_header_seq(plain));
}

/// Enciphers `input` for a datagram, without a header.
pub fn encrypt(input: &[u8]) -> (r: Vec<u8>)
    ensures
        r@ == encrypt_seq(input@),
{
    let mut buf: Vec<u8> = Vec::with_capacity(input.len());
    let mut key: u8 = KEY;
    let mut i: usize = 0;
    while i < input.len()
        invariant
            i <= input@.len(),
            buf@ == encrypt_seq(input@.take(i as int)),
            key == next_key(buf@),
        decreases input@.len() - i,
    {
        let byte = input[i] ^ key;
        proof {
            assert(input@.take(i + 1).drop_last() == input@.take(i as int));
        }
        buf.push(byte);
        key = byte;
        i = i + 1;
    }
    proof {
        assert(input@.take(input@.len() as int) == input@);
    }
    buf
}

/// Deciphers a datagram's bytes, which carry no header.
pub fn decrypt(input: &[u8]) -> (r: Vec<u8>)
    ensures
        r@ == decrypt_seq(input@),
{
    let mut buf: Vec<u8> = Vec::with_capacity(input.len());
    let mut key: u8 = KEY;
    let mut i: usize = 0;
    while i < input.len()
        invariant
            i <= input@.len(),
            buf@ == decrypt_seq(input@.take(i as int)),
            key == next_key(input@.take(i as int)),
        decreases input@.len() - i,
    {
        let next = input[i];
        proof {
            assert(input@.take(i + 1).drop_last() == input@.take(i as int));
        }
        buf.push(next ^ key);
        key = next;
        i = i + 1;
    }
    proof {
        assert(input@.take(input@.len() as int) == input@);
    }
    buf
}

/// Enciphers `input` behind a four-byte big-endian header holding its length,
/// as a TCP request is sent.
pub fn encrypt_with_header(input: &[u8]) -> (r: Vec<u8>)
    requires
        input@.len() <= u32::MAX,
    ensures
        r@ == encrypt_with_header_seq(input@),
        r@.len() == input@.len() + 4,
{
    let len = input.len() as u32;
    let mut out: Vec<u8> = Vec::new();
    out.push(((len >> 24u32) & 0xff) as u8);
    out.push(((len >> 16u32) & 0xff) as u8);
    out.push(((len >> 8u32) & 0xff) as u8);
    out.push((len & 0xff) as u8);
    let mut body = encrypt(input);
    out.append(&mut body);
    proof {
        assert(out@ =~= be_bytes(len) + encrypt_seq(input@));
        lemma_encrypt_len(input@);
    }
    out
}

/// Decodes a framed TCP response: the first four bytes give the plaintext
/// length, and whatever the rest holds beyond it is dropped. A frame shorter
/// than its header is malformed and outside the contract.
pub fn decrypt_with_header(input: &[u8]) -> (r: Vec<u8>)
    requires
        input@.len() >= 4,
    ensures
        r@ == decrypt_with_header_seq(input@),
{
    let len: u32 = ((input[0] as u32) << 24u32) | ((input[1] as u32) << 16u32) | ((input[2] as u32)
        << 8u32) | (input[3] as u32);
    let (_, body) = input.split_at(4);
    let mut msg = decrypt(body);
    proof {
        lemma_decrypt_len(body@);
        assert(body@ == input@.skip(4));
    }
    if (len as usize) < msg.len() {
        msg.truncate(len as usize);
    }
    msg
}

} // verus!
