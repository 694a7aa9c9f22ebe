//! AES-256 encryption of stored files: the data is padded to whole 16-byte blocks, the
//! pad bytes each holding the pad length, and every block is enciphered on its own.

use aes::cipher::{generic_array::GenericArray, BlockDecrypt, BlockEncrypt, KeyInit};
use vstd::prelude::*;
use vstd::slice::slice_to_vec;

verus! {

/// Bytes in one AES block.
pub const BLOCK_LEN: usize = 16;

/// What AES-256 makes of one 16-byte block under a 32-byte key.
pub uninterp spec fn aes256_encrypt_block(key: Seq<u8>, block: Seq<u8>) -> Seq<u8>;

/// What the inverse AES-256 cipher makes of one 16-byte block under a 32-byte key.
pub uninterp spec fn aes256_decrypt_block(key: Seq<u8>, block: Seq<u8>) -> Seq<u8>;

/// Calls `aes::Aes256::new` and `BlockEncrypt::encrypt_block` on one block. The contract
/// claims that the result is `aes256_encrypt_block` of the key and block, that it is a
/// block, and that the inverse cipher turns it back into the input block (AES is a
/// permutation of blocks for each key).
#[verifier::external_body]
fn encipher_block(key: &[u8; 32], block: &[u8]) -> (out: Vec<u8>)
    requires
        block@.len() == BLOCK_LEN,
    ensures
        out@ == aes256_encrypt_block(key@, block@),
        out@.len() == BLOCK_LEN,
        aes256_decrypt_block(key@, out@) == block@,
{
    let cipher = aes::Aes256::new(GenericArray::from_slice(key));
    let mut b = GenericArray::clone_from_slice(block);
    cipher.encrypt_block(&mut b);
    b.to_vec()
}

/// Calls `aes::Aes256::new` and `BlockDecrypt::decrypt_block` on one block. The contract
/// claims that the result is `aes256_decrypt_block` of the key and block, that it is a
/// block, and that the forward cipher turns it back into the input block.
#[verifier::external_body]
fn decipher_block(key: &[u8; 32], block: &[u8]) -> (out: Vec<u8>)
    requires
        block@.len() == BLOCK_LEN,
    ensures
        out@ == aes256_decrypt_block(key@, block@),
        out@.len() == BLOCK_LEN,
        aes256_encrypt_block(key@, out@) == block@,
{
    let cipher = aes::Aes256::new(GenericArray::from_slice(key));
    let mut b = GenericArray::clone_from_slice(block);
    cipher.decrypt_block(&mut b);
    b.to_vec()
}

/// Applies `f` to each whole 16-byte block of `data`, in order; a final part shorter than
/// a block is kept as it is.
pub open spec fn map_blocks(data: Seq<u8>, f: spec_fn(Seq<u8>) -> Seq<u8>) -> Seq<u8>
    decreases data.len(),
{
    if data.len() < BLOCK_LEN {
        data
    } else {
        f(data.take(BLOCK_LEN as int)) + map_blocks(data.skip(BLOCK_LEN as int), f)
    }
}

/// Each whole block of `data` enciphered with `key`.
pub open spec fn encipher_blocks(key: Seq<u8>, data: Seq<u8>) -> Seq<u8> {
    map_blocks(data, |b: Seq<u8>| aes256_encrypt_block(key, b))
}

/// Each whole block of `data` deciphered with `key`.
pub open spec fn decipher_blocks(key: Seq<u8>, data: Seq<u8>) -> Seq<u8> {
    map_blocks(data, |b: Seq<u8>| aes256_decrypt_block(key, b))
}

/// The number of pad bytes added to `n` bytes: from 1 to 16, so that the total is a
/// multiple of 16.
pub open spec fn pad_len(n: nat) -> nat {
    (BLOCK_LEN - n % (BLOCK_LEN as nat)) as nat
}

/// `data` followed by `pad_len` bytes, each holding `pad_len`.
pub open spec fn pad(data: Seq<u8>) -> Seq<u8> {
    data + Seq::new(pad_len(data.len()), |i: int| pad_len(data.len()) as u8)
}

/// The `i`-th 16-byte block of `s`.
pub open spec fn block_at(s: Seq<u8>, i: int) -> Seq<u8> {
    s.subrange(BLOCK_LEN * i, BLOCK_LEN * i + BLOCK_LEN)
}

/// `c` is `plain` enciphered block by block under `key`: `plain` is whole blocks, `c` is
/// as long, and each block of `c` is the AES-256 image of the block of `plain` at the
/// same place.
pub open spec fn enciphers_blockwise(key: Seq<u8>, plain: Seq<u8>, c: Seq<u8>) -> bool {
    &&& plain.len() % (BLOCK_LEN as nat) == 0
    &&& c.len() == plain.len()
    &&& forall|i: int|
        0 <= i < plain.len() / (BLOCK_LEN as nat) ==> #[trigger] block_at(c, i)
            == aes256_encrypt_block(key, block_at(plain, i))
}

/// The stored form of `data` under `key`.
pub open spec fn encrypted(key: Seq<u8>, data: Seq<u8>) -> Seq<u8> {
    encipher_blocks(key, pad(data))
}

/// The last byte of the deciphered `buf`, which says how many pad bytes to drop.
pub open spec fn pad_byte_of(key: Seq<u8>, buf: Seq<u8>) -> u8 {
    decipher_blocks(key, buf).last()
}

/// The stored bytes `buf` can be read back under `key`: there is a last byte, and the
/// pad length it gives is no greater than the length of `buf`.
pub open spec fn padding_fits(key: Seq<u8>, buf: Seq<u8>) -> bool {
    buf.len() > 0 && pad_byte_of(key, buf) as int <= buf.len()
}

/// What reading back the stored bytes `buf` under `key` gives: the deciphered bytes
/// without as many final bytes as the last of them says.
pub open spec fn decrypted(key: Seq<u8>, buf: Seq<u8>) -> Seq<u8> {
    decipher_blocks(key, buf).take(buf.len() - pad_byte_of(key, buf) as int)
}

/// Mapping blocks over a concatenation whose first part is whole blocks maps each part.
pub proof fn lemma_map_blocks_append(a: Seq<u8>, b: Seq<u8>, f: spec_fn(Seq<u8>) -> Seq<u8>)
    requires
        a.len() % (BLOCK_LEN as nat) == 0,
    ensures
        map_blocks(a + b, f) == map_blocks(a, f) + map_blocks(b, f),
    decreases a.len(),
{
    if a.len() == 0 {
        assert(a + b =~= b);
        assert(map_blocks(a, f) =~= Seq::<u8>::empty());
        assert(map_blocks(a + b, f) =~= map_blocks(a, f) + map_blocks(b, f));
    } else {
        let ab = a + b;
        assert(ab.take(16) =~= a.take(16));
        assert(ab.skip(16) =~= a.skip(16) + b);
        lemma_map_blocks_append(a.skip(16), b, f);
        assert(map_blocks(ab, f) =~= map_blocks(a, f) + map_blocks(b, f));
    }
}

/// A single block is mapped to `f` of itself.
proof fn lemma_map_one_block(b: Seq<u8>, f: spec_fn(Seq<u8>) -> Seq<u8>)
    requires
        b.len() == BLOCK_LEN,
    ensures
        map_blocks(b, f) == f(b),
{
    assert(b.take(16) =~= b);
    assert(b.skip(16).len() == 0);
    assert(map_blocks(b.skip(16), f) =~= Seq::<u8>::empty());
    assert(f(b) + Seq::<u8>::empty() =~= f(b));
}

/// Padding `a + b`, where `a` is whole blocks, pads only `b`.
proof fn lemma_pad_append(a: Seq<u8>, b: Seq<u8>)
    requires
        a.len() % (BLOCK_LEN as nat) == 0,
    ensures
        pad(a + b) == a + pad(b),
{
    assert(pad_len((a + b).len()) == pad_len(b.len()));
    assert(pad(a + b) =~= a + pad(b));
}

/// Blocks are enciphered independently: the encryption of `a + b`, where `a` is whole
/// blocks, is the encryption of `a` cut to the length of `a`, followed by the encryption
/// of `b`.
pub proof fn lemma_encryption_splits_at_blocks(
    key: Seq<u8>,
    a: Seq<u8>,
    b: Seq<u8>,
    ea: Seq<u8>,
    eb: Seq<u8>,
    eab: Seq<u8>,
)
    requires
        a.len() % (BLOCK_LEN as nat) == 0,
        enciphers_blockwise(key, pad(a), ea),
        enciphers_blockwise(key, pad(b), eb),
        enciphers_blockwise(key, pad(a + b), eab),
    ensures
        eab == ea.take(a.len() as int) + eb,
{
    lemma_pad_append(a, b);
    lemma_pad_append(a, Seq::<u8>::empty());
    assert(a + Seq::<u8>::empty() =~= a);
    let pab = pad(a + b);
    let pa = pad(a);
    let pb = pad(b);
    let na = a.len() as int;
    let ka = na / 16;
    assert(16 * ka == na);
    let rhs = ea.take(na) + eb;
    assert(rhs.len() == eab.len());
    assert forall|x: int| 0 <= x < eab.len() implies eab[x] == rhs[x] by {
        let j = x / 16;
        let r = x % 16;
        assert(x == 16 * j + r);
        assert(eab[x] == block_at(eab, j)[r]);
        if x < na {
            assert(j < ka);
            assert(block_at(pab, j) =~= block_at(pa, j));
            assert(block_at(eab, j) == block_at(ea, j));
            assert(ea[x] == block_at(ea, j)[r]);
        } else {
            let jb = j - ka;
            assert(0 <= jb);
            assert(block_at(pab, j) =~= block_at(pb, jb));
            assert(block_at(eab, j) == block_at(eb, jb));
            assert(eb[x - na] == block_at(eb, jb)[r]);
        }
    }
    assert(eab =~= rhs);
}

/// Pads `data` to whole blocks.
fn pad_data(data: &[u8]) -> (padded: Vec<u8>)
    requires
        data@.len() + BLOCK_LEN <= usize::MAX,
    ensures
        padded@ == pad(data@),
{
    let count: usize = BLOCK_LEN - data.len() % BLOCK_LEN;
    let pad_byte: u8 = count as u8;
    let mut padded = slice_to_vec(data);
    let mut k: usize = 0;
    while k < count
        invariant
            k <= count,
            count == pad_len(data@.len()),
            pad_byte == count as u8,
            padded@ == data@ + Seq::new(k as nat, |i: int| pad_byte),
        decreases count - k,
    {
        padded.push(pad_byte);
        k += 1;
        assert(padded@ =~= data@ + Seq::new(k as nat, |i: int| pad_byte));
    }
    assert(padded@ =~= pad(data@));
    padded
}

/// Encrypts `data` for storage: pads it to whole blocks, then enciphers each block with
/// `aes_key`. The result is read back as `data` by `decrypt_data` with the same key.
pub fn encrypt_data(data: &[u8], aes_key: [u8; 32]) -> (res: Vec<u8>)
    requires
        data@.len() + BLOCK_LEN <= usize::MAX,
    ensures
        res@ == encrypted(aes_key@, data@),
        res@.len() == data@.len() + pad_len(data@.len()),
        enciphers_blockwise(aes_key@, pad(data@), res@),
        padding_fits(aes_key@, res@),
        decrypted(aes_key@, res@) == data@,
{
    let padded = pad_data(data);
    let n = padded.len();
    let ghost p = padded@;
    let ghost enc = |b: Seq<u8>| aes256_encrypt_block(aes_key@, b);
    let ghost dec = |b: Seq<u8>| aes256_decrypt_block(aes_key@, b);
    let mut out: Vec<u8> = Vec::new();
    let mut i: usize = 0;
    assert(p.take(0) =~= Seq::<u8>::empty());
    while i < n
        invariant
            n == p.len(),
            p == padded@,
            enc == (|b: Seq<u8>| aes256_encrypt_block(aes_key@, b)),
            dec == (|b: Seq<u8>| aes256_decrypt_block(aes_key@, b)),
            n % BLOCK_LEN == 0,
            i % BLOCK_LEN == 0,
            i <= n,
            out@.len() == i,
            out@ == map_blocks(p.take(i as int), enc),
            map_blocks(out@, dec) == p.take(i as int),
            forall|j: int|
                0 <= j < i / BLOCK_LEN ==> #[trigger] block_at(out@, j) == aes256_encrypt_block(
                    aes_key@,
                    block_at(p, j),
                ),
        decreases n - i,
    {
        let block = &padded.as_slice()[i..i + BLOCK_LEN];
        let mut c = encipher_block(&aes_key, block);
        let ghost old_out = out@;
        let ghost cv = c@;
        proof {
            let blk = block@;
            assert(p.take(i + 16) =~= p.take(i as int) + blk);
            lemma_map_blocks_append(p.take(i as int), blk, enc);
            lemma_map_one_block(blk, enc);
            lemma_map_blocks_append(out@, c@, dec);
            lemma_map_one_block(c@, dec);
        }
        out.append(&mut c);
        proof {
            let k: int = i as int / 16;
            assert(16 * k == i);
            assert forall|j: int| 0 <= j <= k implies #[trigger] block_at(out@, j)
                == aes256_encrypt_block(aes_key@, block_at(p, j)) by {
                if j < k {
                    assert(block_at(out@, j) =~= block_at(old_out, j));
                } else {
                    assert(j == k);
                    assert(block_at(out@, j) =~= cv);
                    assert(block_at(p, j) =~= block@);
                }
            }
        }
        i += BLOCK_LEN;
    }
    assert(p.take(n as int) =~= p);
    proof {
        let d = pad(data@);
        let pl = pad_len(data@.len());
        assert(d.last() == pl as u8);
        assert(d.take(d.len() - pl) =~= data@);
    }
    out
}

/// Reads back stored bytes: deciphers each whole block with `aes_key` (a final part
/// shorter than a block stays as it is), then drops as many final bytes as the last byte
/// says.
pub fn decrypt_data(buf: &[u8], aes_key: [u8; 32]) -> (res: Vec<u8>)
    requires
        padding_fits(aes_key@, buf@),
    ensures
        decipher_blocks(aes_key@, buf@).len() == buf@.len(),
        res@ == decrypted(aes_key@, buf@),
{
    let n = buf.len();
    let whole: usize = n - n % BLOCK_LEN;
    let ghost dec = |b: Seq<u8>| aes256_decrypt_block(aes_key@, b);
    let mut out: Vec<u8> = Vec::new();
    let mut i: usize = 0;
    assert(buf@.take(0) =~= Seq::<u8>::empty());
    while i < whole
        invariant
            n == buf@.len(),
            whole == n - n % BLOCK_LEN,
            dec == (|b: Seq<u8>| aes256_decrypt_block(aes_key@, b)),
            i % BLOCK_LEN == 0,
            i <= whole,
            out@.len() == i,
            out@ == map_blocks(buf@.take(i as int), dec),
        decreases whole - i,
    {
        let block = &buf[i..i + BLOCK_LEN];
        let mut p = decipher_block(&aes_key, block);
        proof {
            assert(buf@.take(i + 16) =~= buf@.take(i as int) + block@);
            lemma_map_blocks_append(buf@.take(i as int), block@, dec);
            lemma_map_one_block(block@, dec);
        }
        out.append(&mut p);
        i += BLOCK_LEN;
    }
    let mut rest = slice_to_vec(&buf[whole..n]);
    proof {
        assert(buf@ =~= buf@.take(whole as int) + rest@);
        lemma_map_blocks_append(buf@.take(whole as int), rest@, dec);
    }
    out.append(&mut rest);
    let pad_byte = out[n - 1];
    out.truncate(n - pad_byte as usize);
    out
}

/// Whether stored bytes can be read back with `aes_key`, found by deciphering at most
/// their last block.
pub fn stored_padding_fits(buf: &[u8], aes_key: [u8; 32]) -> (ok: bool)
    ensures
        ok == padding_fits(aes_key@, buf@),
{
    let n = buf.len();
    if n == 0 {
        return false;
    }
    let ghost dec = |b: Seq<u8>| aes256_decrypt_block(aes_key@, b);
    let last: u8;
    if n % BLOCK_LEN == 0 {
        let tail = decipher_block(&aes_key, &buf[n - BLOCK_LEN..n]);
        last = tail[BLOCK_LEN - 1];
        proof {
            let head = buf@.take(n - 16);
            let blk = buf@.subrange(n - 16, n as int);
            assert(buf@ =~= head + blk);
            lemma_map_blocks_append(head, blk, dec);
            lemma_map_one_block(blk, dec);
        }
    } else {
        last = buf[n - 1];
        proof {
            let whole = n - n % 16;
            let head = buf@.take(whole);
            let rest = buf@.skip(whole);
            assert(buf@ =~= head + rest);
            lemma_map_blocks_append(head, rest, dec);
        }
    }
    last as usize <= n
}

/// Reads back stored bytes as `decrypt_data` does, or gives `None` where the last
/// deciphered byte asks to drop more bytes than there are (or there are none).
pub fn decrypt_data_checked(buf: &[u8], aes_key: [u8; 32]) -> (res: Option<Vec<u8>>)
    ensures
        match res {
            Some(v) => padding_fits(aes_key@, buf@) && decipher_blocks(aes_key@, buf@).len()
                == buf@.len() && v@ == decrypted(aes_key@, buf@),
            None => !padding_fits(aes_key@, buf@),
        },
{
    if stored_padding_fits(buf, aes_key) {
        Some(decrypt_data(buf, aes_key))
    } else {
        None
    }
}

} // verus!
