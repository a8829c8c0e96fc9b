//! The compact binary serialization format for account-meta descriptors.
//!
//! A dry run of an instruction can return the ordered list of account
//! references that a later real instruction will touch. That list crosses
//! the simulation boundary as a versionless compact binary value: a 32-bit
//! little-endian element count followed by one 34-byte record per element
//! (32 address bytes, one signer byte, one writable byte, each flag byte 0
//! or 1). Encoding and decoding are defined here over byte sequences, and
//! decoding accepts a byte string exactly when it is the encoding of some
//! list.

use vstd::prelude::*;

use crate::errors::ChainError;

verus! {

/// One decoded account reference: an address plus the flags needed to place
/// the account in a real transaction.
#[derive(Clone, Debug, PartialEq, Eq)]
pub struct AccountMeta {
    /// The account's address, as its 32 raw bytes.
    pub pubkey: Vec<u8>,
    /// Whether the account must sign the transaction.
    pub is_signer: bool,
    /// Whether the account may be written by the instruction.
    pub is_writable: bool,
}

/// The mathematical value of one account reference.
pub ghost struct AccountMetaV {
    /// The address bytes.
    pub pubkey: Seq<u8>,
    /// Whether the account must sign.
    pub is_signer: bool,
    /// Whether the account may be written.
    pub is_writable: bool,
}

impl View for AccountMeta {
    type V = AccountMetaV;

    open spec fn view(&self) -> AccountMetaV {
        AccountMetaV { pubkey: self.pubkey@, is_signer: self.is_signer, is_writable: self.is_writable }
    }
}

/// A well-formed account reference holds a full 32-byte address.
pub open spec fn meta_wf(m: AccountMetaV) -> bool {
    m.pubkey.len() == 32
}

/// Every element of the sequence is well formed.
pub open spec fn metas_wf(s: Seq<AccountMetaV>) -> bool {
    forall|i: int| 0 <= i < s.len() ==> meta_wf(#[trigger] s[i])
}

/// The mathematical values of a vector of account references.
pub open spec fn views_of_metas(s: Seq<AccountMeta>) -> Seq<AccountMetaV> {
    s.map_values(|m: AccountMeta| m@)
}

/// The byte a flag encodes to.
pub open spec fn bool_byte(b: bool) -> u8 {
    if b {
        1u8
    } else {
        0u8
    }
}

/// The 34-byte record of one account reference.
pub open spec fn meta_bytes(m: AccountMetaV) -> Seq<u8> {
    m.pubkey + seq![bool_byte(m.is_signer), bool_byte(m.is_writable)]
}

/// The records of a sequence of account references, in order.
pub open spec fn metas_bytes(s: Seq<AccountMetaV>) -> Seq<u8>
    decreases s.len(),
{
    if s.len() == 0 {
        Seq::empty()
    } else {
        meta_bytes(s[0]) + metas_bytes(s.drop_first())
    }
}

/// The four little-endian bytes of a 32-bit count.
pub open spec fn u32_le_bytes(n: u32) -> Seq<u8> {
    seq![
        (n % 256) as u8,
        ((n / 256) % 256) as u8,
        ((n / 65536) % 256) as u8,
        ((n / 16777216) % 256) as u8,
    ]
}

/// The count held by four little-endian bytes.
pub open spec fn le_bytes_u32(b: Seq<u8>) -> int
    recommends
        b.len() == 4,
{
    b[0] + 256 * b[1] + 65536 * b[2] + 16777216 * b[3]
}

/// The encoding of a whole list: the element count, then the records.
pub open spec fn encoded_meta_list(s: Seq<AccountMetaV>) -> Seq<u8>
    recommends
        s.len() <= u32::MAX,
{
    u32_le_bytes(s.len() as u32) + metas_bytes(s)
}

/// One record is well formed when both flag bytes are 0 or 1.
pub open spec fn valid_record(rec: Seq<u8>) -> bool {
    &&& rec.len() == 34
    &&& (rec[32] == 0 || rec[32] == 1)
    &&& (rec[33] == 0 || rec[33] == 1)
}

/// A byte string is a well-formed list encoding when its declared count
/// matches its length exactly and every record is well formed.
pub open spec fn meta_list_bytes_wf(bytes: Seq<u8>) -> bool {
    &&& bytes.len() >= 4
    &&& bytes.len() == 4 + 34 * le_bytes_u32(bytes.take(4))
    &&& forall|k: int|
        0 <= k < le_bytes_u32(bytes.take(4)) ==> valid_record(
            #[trigger] bytes.subrange(4 + 34 * k, 4 + 34 * k + 34),
        )
}

/// Reassembling the four little-endian bytes of a count gives the count
/// back.
pub proof fn lemma_le_bytes_of_u32(n: u32)
    ensures
        le_bytes_u32(u32_le_bytes(n)) == n,
{
    assert(n % 256 + 256 * ((n / 256) % 256) + 65536 * ((n / 65536) % 256) + 16777216 * ((n
        / 16777216) % 256) == n) by (bit_vector);
}

/// The four little-endian bytes of a count assembled from four bytes are
/// those bytes.
pub proof fn lemma_u32_le_bytes_of_sum(b0: u8, b1: u8, b2: u8, b3: u8)
    ensures
        u32_le_bytes(((b0 as int) + 256 * (b1 as int) + 65536 * (b2 as int) + 16777216 * (
        b3 as int)) as u32) == seq![b0, b1, b2, b3],
{
    let n: u32 = ((b0 as int) + 256 * (b1 as int) + 65536 * (b2 as int) + 16777216 * (
    b3 as int)) as u32;
    assert(n == b0 as u32 + 256 * (b1 as u32) + 65536 * (b2 as u32) + 16777216 * (b3 as u32));
    assert(n % 256 == b0 as u32 && (n / 256) % 256 == b1 as u32 && (n / 65536) % 256 == b2 as u32
        && (n / 16777216) % 256 == b3 as u32) by (bit_vector)
        requires
            n == b0 as u32 + 256 * (b1 as u32) + 65536 * (b2 as u32) + 16777216 * (b3 as u32),
    ;
    assert(u32_le_bytes(n) =~= seq![b0, b1, b2, b3]);
}

/// A well-formed list encodes to 34 bytes per element after the count.
pub proof fn lemma_metas_bytes_len(s: Seq<AccountMetaV>)
    requires
        metas_wf(s),
    ensures
        metas_bytes(s).len() == 34 * s.len(),
    decreases s.len(),
{
    if s.len() > 0 {
        assert(metas_wf(s.drop_first()));
        lemma_metas_bytes_len(s.drop_first());
    }
}

/// Appending one element appends its record.
pub proof fn lemma_metas_bytes_snoc(s: Seq<AccountMetaV>, m: AccountMetaV)
    ensures
        metas_bytes(s.push(m)) == metas_bytes(s) + meta_bytes(m),
    decreases s.len(),
{
    if s.len() == 0 {
        assert(s.push(m)[0] == m);
        assert(s.push(m).drop_first() =~= Seq::<AccountMetaV>::empty());
        assert(metas_bytes(s.push(m)) == meta_bytes(m) + metas_bytes(Seq::<AccountMetaV>::empty()));
        assert(metas_bytes(s.push(m)) =~= metas_bytes(s) + meta_bytes(m));
    } else {
        let t = s.drop_first();
        assert(s.push(m)[0] == s[0]);
        assert(s.push(m).drop_first() =~= t.push(m));
        lemma_metas_bytes_snoc(t, m);
        assert(metas_bytes(s.push(m)) == meta_bytes(s[0]) + (metas_bytes(t) + meta_bytes(m)));
        assert(metas_bytes(s) == meta_bytes(s[0]) + metas_bytes(t));
        assert(meta_bytes(s[0]) + (metas_bytes(t) + meta_bytes(m)) =~= (meta_bytes(s[0])
            + metas_bytes(t)) + meta_bytes(m));
    }
}

/// The record of element `k` sits at offset `34 * k` of the concatenated
/// records.
pub proof fn lemma_metas_bytes_index(s: Seq<AccountMetaV>, k: int)
    requires
        metas_wf(s),
        0 <= k < s.len(),
    ensures
        metas_bytes(s).subrange(34 * k, 34 * k + 34) == meta_bytes(s[k]),
    decreases k,
{
    lemma_metas_bytes_len(s);
    assert(metas_wf(s.drop_first()));
    lemma_metas_bytes_len(s.drop_first());
    if k == 0 {
        assert(meta_bytes(s[0]).len() == 34);
        assert(metas_bytes(s).subrange(0, 34) =~= meta_bytes(s[0]));
    } else {
        lemma_metas_bytes_index(s.drop_first(), k - 1);
        assert(metas_bytes(s).subrange(34 * k, 34 * k + 34) =~= metas_bytes(
            s.drop_first(),
        ).subrange(34 * (k - 1), 34 * (k - 1) + 34));
    }
}

/// Two well-formed records that hold the same bytes describe the same
/// account reference.
pub proof fn lemma_meta_bytes_injective(a: AccountMetaV, b: AccountMetaV)
    requires
        meta_wf(a),
        meta_wf(b),
        meta_bytes(a) == meta_bytes(b),
    ensures
        a == b,
{
    assert(meta_bytes(a).subrange(0, 32) =~= a.pubkey);
    assert(meta_bytes(b).subrange(0, 32) =~= b.pubkey);
    assert(meta_bytes(a)[32] == bool_byte(a.is_signer));
    assert(meta_bytes(b)[32] == bool_byte(b.is_signer));
    assert(meta_bytes(a)[33] == bool_byte(a.is_writable));
    assert(meta_bytes(b)[33] == bool_byte(b.is_writable));
}

/// The encoding of a well-formed list is itself a well-formed byte string:
/// decoding it is owed to succeed.
pub proof fn lemma_encoded_meta_list_wf(s: Seq<AccountMetaV>)
    requires
        metas_wf(s),
        s.len() <= u32::MAX,
    ensures
        meta_list_bytes_wf(encoded_meta_list(s)),
{
    let bytes = encoded_meta_list(s);
    lemma_metas_bytes_len(s);
    assert(bytes.take(4) =~= u32_le_bytes(s.len() as u32));
    lemma_le_bytes_of_u32(s.len() as u32);
    assert forall|k: int| 0 <= k < le_bytes_u32(bytes.take(4)) implies valid_record(
        #[trigger] bytes.subrange(4 + 34 * k, 4 + 34 * k + 34),
    ) by {
        lemma_metas_bytes_index(s, k);
        assert(bytes.subrange(4 + 34 * k, 4 + 34 * k + 34) =~= metas_bytes(s).subrange(
            34 * k,
            34 * k + 34,
        ));
        assert(meta_bytes(s[k])[32] == bool_byte(s[k].is_signer));
        assert(meta_bytes(s[k])[33] == bool_byte(s[k].is_writable));
    }
}

/// The encoding is injective: a byte string is the encoding of at most one
/// list, so decoding an encoded list gives the original back. This is the
/// round-trip law of the format.
pub proof fn lemma_meta_list_encoding_injective(a: Seq<AccountMetaV>, b: Seq<AccountMetaV>)
    requires
        metas_wf(a),
        metas_wf(b),
        a.len() <= u32::MAX,
        b.len() <= u32::MAX,
        encoded_meta_list(a) == encoded_meta_list(b),
    ensures
        a == b,
{
    let ea = encoded_meta_list(a);
    let eb = encoded_meta_list(b);
    lemma_metas_bytes_len(a);
    lemma_metas_bytes_len(b);
    assert(ea.take(4) =~= u32_le_bytes(a.len() as u32));
    assert(eb.take(4) =~= u32_le_bytes(b.len() as u32));
    lemma_le_bytes_of_u32(a.len() as u32);
    lemma_le_bytes_of_u32(b.len() as u32);
    assert(a.len() == b.len());
    assert(ea.skip(4) =~= metas_bytes(a));
    assert(eb.skip(4) =~= metas_bytes(b));
    assert forall|k: int| 0 <= k < a.len() implies a[k] == b[k] by {
        lemma_metas_bytes_index(a, k);
        lemma_metas_bytes_index(b, k);
        lemma_meta_bytes_injective(a[k], b[k]);
    }
    assert(a =~= b);
}

/// Encodes an ordered list of account references into the compact binary
/// format.
pub fn encode_account_metas(metas: &Vec<AccountMeta>) -> (r: Vec<u8>)
    requires
        metas@.len() <= u32::MAX,
        metas_wf(views_of_metas(metas@)),
    ensures
        r@ == encoded_meta_list(views_of_metas(metas@)),
{
    let ghost all = views_of_metas(metas@);
    let n32: u32 = metas.len() as u32;
    let mut out: Vec<u8> = Vec::new();
    out.push((n32 % 256) as u8);
    out.push(((n32 / 256) % 256) as u8);
    out.push(((n32 / 65536) % 256) as u8);
    out.push(((n32 / 16777216) % 256) as u8);
    assert(out@ =~= u32_le_bytes(n32));
    let n = metas.len();
    let mut i: usize = 0;
    while i < n
        invariant
            n == metas@.len(),
            n <= u32::MAX,
            n32 == n as u32,
            all == views_of_metas(metas@),
            metas_wf(all),
            i <= n,
            out@ == u32_le_bytes(n32) + metas_bytes(views_of_metas(metas@.take(i as int))),
        decreases n - i,
    {
        let ghost done = views_of_metas(metas@.take(i as int));
        let ghost base = out@;
        assert(all[i as int] == metas@[i as int]@);
        let m = &metas[i];
        let mut j: usize = 0;
        while j < 32
            invariant
                j <= 32,
                m == metas@[i as int],
                0 <= i < metas@.len(),
                meta_wf(metas@[i as int]@),
                out@ == base + m.pubkey@.take(j as int),
            decreases 32 - j,
        {
            out.push(m.pubkey[j]);
            assert(out@ =~= base + m.pubkey@.take(j as int + 1));
            j += 1;
        }
        assert(m.pubkey@.take(32) =~= m.pubkey@);
        out.push(if m.is_signer {
            1
        } else {
            0
        });
        out.push(if m.is_writable {
            1
        } else {
            0
        });
        proof {
            assert(out@ =~= base + meta_bytes(all[i as int]));
            lemma_metas_bytes_snoc(done, all[i as int]);
            assert(views_of_metas(metas@.take(i as int + 1)) =~= done.push(all[i as int]));
            assert(out@ =~= u32_le_bytes(n32) + metas_bytes(
                views_of_metas(metas@.take(i as int + 1)),
            ));
        }
        i += 1;
    }
    assert(metas@.take(n as int) =~= metas@);
    out
}

/// Decodes the compact binary format back into an ordered list of account
/// references. Decoding succeeds exactly on well-formed byte strings, and
/// what it returns encodes back to the input bytes.
pub fn decode_account_metas(bytes: &Vec<u8>) -> (r: Result<Vec<AccountMeta>, ChainError>)
    ensures
        r is Ok <==> meta_list_bytes_wf(bytes@),
        r matches Ok(v) ==> {
            &&& v@.len() <= u32::MAX
            &&& metas_wf(views_of_metas(v@))
            &&& bytes@ == encoded_meta_list(views_of_metas(v@))
        },
        r matches Err(e) ==> e is Decode,
{
    if bytes.len() < 4 {
        return Err(ChainError::Decode("account-meta payload is shorter than its count".to_owned()));
    }
    let b0 = bytes[0];
    let b1 = bytes[1];
    let b2 = bytes[2];
    let b3 = bytes[3];
    let n32: u32 = (b0 as u32) + 256 * (b1 as u32) + 65536 * (b2 as u32) + 16777216 * (b3 as u32);
    proof {
        assert(bytes@.take(4)[0] == b0 && bytes@.take(4)[1] == b1 && bytes@.take(4)[2] == b2
            && bytes@.take(4)[3] == b3);
        assert(n32 == le_bytes_u32(bytes@.take(4)));
        lemma_u32_le_bytes_of_sum(b0, b1, b2, b3);
        assert(u32_le_bytes(n32) =~= bytes@.take(4));
    }
    let n = n32 as usize;
    let total = bytes.len();
    assert(total == bytes@.len() && bytes@.len() <= usize::MAX);
    if (total as u64) != 4u64 + 34u64 * (n as u64) {
        return Err(
            ChainError::Decode("account-meta payload length does not match its count".to_owned()),
        );
    }
    let mut out: Vec<AccountMeta> = Vec::new();
    let mut k: usize = 0;
    while k < n
        invariant
            bytes@.len() == 4 + 34 * n,
            bytes@.len() <= usize::MAX,
            n == n32,
            n32 == le_bytes_u32(bytes@.take(4)),
            u32_le_bytes(n32) == bytes@.take(4),
            k <= n,
            out@.len() == k,
            metas_wf(views_of_metas(out@)),
            metas_bytes(views_of_metas(out@)) == bytes@.subrange(4, 4 + 34 * (k as int)),
            forall|q: int|
                0 <= q < k ==> valid_record(
                    #[trigger] bytes@.subrange(4 + 34 * q, 4 + 34 * q + 34),
                ),
        decreases n - k,
    {
        let base: usize = 4 + 34 * k;
        let mut pk: Vec<u8> = Vec::new();
        let mut j: usize = 0;
        while j < 32
            invariant
                j <= 32,
                base == 4 + 34 * k,
                k < n,
                bytes@.len() == 4 + 34 * n,
                bytes@.len() <= usize::MAX,
                pk@ == bytes@.subrange(base as int, base as int + j as int),
            decreases 32 - j,
        {
            pk.push(bytes[base + j]);
            assert(pk@ =~= bytes@.subrange(base as int, base as int + j as int + 1));
            j += 1;
        }
        let sb = bytes[base + 32];
        let wb = bytes[base + 33];
        if sb > 1 || wb > 1 {
            proof {
                let rec = bytes@.subrange(4 + 34 * (k as int), 4 + 34 * (k as int) + 34);
                assert(rec[32] == sb && rec[33] == wb);
                assert(!valid_record(rec));
            }
            return Err(ChainError::Decode("account-meta flag byte is not 0 or 1".to_owned()));
        }
        let meta = AccountMeta { pubkey: pk, is_signer: sb == 1, is_writable: wb == 1 };
        proof {
            let ghost done = views_of_metas(out@);
            let rec = bytes@.subrange(4 + 34 * (k as int), 4 + 34 * (k as int) + 34);
            assert(meta_bytes(meta@) =~= rec);
            lemma_metas_bytes_snoc(done, meta@);
            assert(views_of_metas(out@.push(meta)) =~= done.push(meta@));
            assert(metas_bytes(done.push(meta@)) =~= bytes@.subrange(4, 4 + 34 * (k as int + 1)));
            assert(valid_record(rec));
        }
        out.push(meta);
        k += 1;
    }
    proof {
        assert(bytes@.subrange(4, 4 + 34 * (n as int)) =~= bytes@.skip(4));
        assert(bytes@ =~= bytes@.take(4) + bytes@.skip(4));
        assert(views_of_metas(out@).len() == n);
        assert(bytes@ =~= encoded_meta_list(views_of_metas(out@)));
        assert(meta_list_bytes_wf(bytes@));
    }
    Ok(out)
}

} // verus!
