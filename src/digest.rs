use vstd::prelude::*;

verus! {

/// Size of a recoverable signature: 64 bytes of signature and a recovery id.
pub const SIGNATURE_SIZE: usize = 65;

/// Offset of the signature in a signed witness: after the witness's total
/// size, its three field offsets and the signature's own length.
pub const SIGNATURE_START: usize = 20;

/// Offset just past the signature in a signed witness.
pub const SIGNATURE_END: usize = 85;

/// Length of a key-hash: the first 20 bytes of a hash.
pub const KEY_HASH_LEN: usize = 20;

/// The 32-byte digest that `ckb_hash::blake2b_256` gives for `data`.
pub uninterp spec fn ckb_hash_of(data: Seq<u8>) -> Seq<u8>;

/// Relies on ckb_hash::blake2b_256: the 32-byte blake2b digest of the bytes,
/// personalised with "ckb-default-hash", which depends on the bytes alone.
#[verifier::external_body]
fn blake2b_256(data: &[u8]) -> (r: Vec<u8>)
    ensures
        r@ == ckb_hash_of(data@),
        r@.len() == 32,
{
    ckb_hash::blake2b_256(data).to_vec()
}

/// The key-hash of a public key: its hash cut to 20 bytes.
pub open spec fn key_hash_spec(pubkey: Seq<u8>) -> Seq<u8> {
    ckb_hash_of(pubkey).subrange(0, KEY_HASH_LEN as int)
}

/// The little-endian unsigned integer in the four bytes of `w` from `at`.
pub open spec fn le_u32_at(w: Seq<u8>, at: int) -> nat {
    w[at] as nat + w[at + 1] as nat * 256 + w[at + 2] as nat * 65536 + w[at + 3] as nat
        * 16777216
}

/// Whether `w` is a witness of three fields whose first field, the lock,
/// holds a signature of `SIGNATURE_SIZE` bytes: a total size equal to its
/// length, field offsets 16 and 85, a third offset between 85 and the end,
/// and the signature's length 65 as a four-byte prefix. The two fields after
/// the signature are not inspected.
pub open spec fn is_signed_witness(w: Seq<u8>) -> bool {
    &&& w.len() >= SIGNATURE_END
    &&& le_u32_at(w, 0) == w.len()
    &&& le_u32_at(w, 4) == 16
    &&& le_u32_at(w, 8) == SIGNATURE_END
    &&& SIGNATURE_END <= le_u32_at(w, 12) <= w.len()
    &&& le_u32_at(w, 16) == SIGNATURE_SIZE
}

/// A witness with its signature bytes replaced by zeros.
pub open spec fn zeroed_signature(w: Seq<u8>) -> Seq<u8> {
    Seq::new(
        w.len(),
        |j: int|
            if SIGNATURE_START <= j < SIGNATURE_END {
                0u8
            } else {
                w[j]
            },
    )
}

/// The `k` low bytes of `n`, least significant first.
pub open spec fn le_bytes(n: nat, k: nat) -> Seq<u8>
    decreases k,
{
    if k == 0 {
        seq![]
    } else {
        seq![(n % 256) as u8] + le_bytes(n / 256, (k - 1) as nat)
    }
}

/// A byte string preceded by its length as 8 little-endian bytes.
pub open spec fn framed(w: Seq<u8>) -> Seq<u8> {
    le_bytes(w.len(), 8) + w
}

/// The byte strings, each framed, one after the other.
pub open spec fn framed_all(ws: Seq<Seq<u8>>) -> Seq<u8>
    decreases ws.len(),
{
    if ws.len() == 0 {
        seq![]
    } else {
        framed(ws[0]) + framed_all(ws.drop_first())
    }
}

/// The contents of a list of witnesses.
pub open spec fn witness_views(ws: Seq<Vec<u8>>) -> Seq<Seq<u8>> {
    ws.map_values(|w: Vec<u8>| w@)
}

/// The bytes that are hashed into the signing digest: the transaction hash,
/// then the first witness with its signature zeroed, then every later witness
/// as it is, each witness framed by its length.
pub open spec fn signing_message_spec(tx_hash: Seq<u8>, ws: Seq<Seq<u8>>) -> Seq<u8> {
    tx_hash + framed_all(ws.update(0, zeroed_signature(ws[0])))
}

/// Whether a signing digest can be built from these witnesses: there is a
/// first witness, and it holds a signature.
pub open spec fn digest_defined(ws: Seq<Seq<u8>>) -> bool {
    ws.len() >= 1 && is_signed_witness(ws[0])
}

/// The signing digest of a transaction with this hash and these witnesses.
pub open spec fn signing_digest_spec(tx_hash: Seq<u8>, ws: Seq<Seq<u8>>) -> Seq<u8> {
    ckb_hash_of(signing_message_spec(tx_hash, ws))
}

/// Framing one more byte string appends its frame.
pub proof fn lemma_framed_all_push(ws: Seq<Seq<u8>>, w: Seq<u8>)
    ensures
        framed_all(ws.push(w)) == framed_all(ws) + framed(w),
    decreases ws.len(),
{
    if ws.len() == 0 {
        assert(ws.push(w).drop_first() =~= ws);
        assert(framed_all(ws.push(w)) =~= framed_all(ws) + framed(w));
    } else {
        assert(ws.push(w).drop_first() =~= ws.drop_first().push(w));
        lemma_framed_all_push(ws.drop_first(), w);
        assert(framed_all(ws.push(w)) =~= framed_all(ws) + framed(w));
    }
}

/// Reads the four bytes of `w` from `at` as a little-endian integer.
fn read_le_u32(w: &[u8], at: usize) -> (r: u64)
    requires
        at + 4 <= w@.len(),
    ensures
        r as nat == le_u32_at(w@, at as int),
{
    (w[at] as u64) + (w[at + 1] as u64) * 256 + (w[at + 2] as u64) * 65536 + (w[at + 3] as u64)
        * 16777216
}

/// Returns whether `w` is a witness whose lock field holds a signature of
/// `SIGNATURE_SIZE` bytes.
pub fn is_signed_witness_args(w: &[u8]) -> (r: bool)
    ensures
        r == is_signed_witness(w@),
{
    let n: usize = w.len();
    if n < SIGNATURE_END {
        return false;
    }
    let total = read_le_u32(w, 0);
    let first = read_le_u32(w, 4);
    let second = read_le_u32(w, 8);
    let third = read_le_u32(w, 12);
    let lock_len = read_le_u32(w, 16);
    total == n as u64 && first == 16 && second == SIGNATURE_END as u64 && SIGNATURE_END as u64
        <= third && third <= n as u64 && lock_len == SIGNATURE_SIZE as u64
}

/// Returns the signature that a signed witness holds.
pub fn witness_signature(w: &[u8]) -> (r: Vec<u8>)
    requires
        is_signed_witness(w@),
    ensures
        r@ == w@.subrange(SIGNATURE_START as int, SIGNATURE_END as int),
        r@.len() == SIGNATURE_SIZE,
{
    let mut r: Vec<u8> = Vec::new();
    let mut i: usize = SIGNATURE_START;
    while i < SIGNATURE_END
        invariant
            SIGNATURE_START <= i <= SIGNATURE_END <= w@.len(),
            r@ == w@.subrange(SIGNATURE_START as int, i as int),
        decreases SIGNATURE_END - i,
    {
        r.push(w[i]);
        assert(w@.subrange(SIGNATURE_START as int, i + 1) =~= w@.subrange(
            SIGNATURE_START as int,
            i as int,
        ).push(w@[i as int]));
        i = i + 1;
    }
    r
}

/// Returns the witness with its signature bytes replaced by zeros.
pub fn canonical_witness(w: &[u8]) -> (r: Vec<u8>)
    ensures
        r@ == zeroed_signature(w@),
{
    let n: usize = w.len();
    let mut r: Vec<u8> = Vec::new();
    let mut i: usize = 0;
    while i < n
        invariant
            i <= n == w@.len(),
            r@ =~= zeroed_signature(w@).subrange(0, i as int),
        decreases n - i,
    {
        if SIGNATURE_START <= i && i < SIGNATURE_END {
            r.push(0u8);
        } else {
            r.push(w[i]);
        }
        i = i + 1;
    }
    assert(zeroed_signature(w@).subrange(0, n as int) =~= zeroed_signature(w@));
    r
}

/// Returns the 8 little-endian bytes of `n`.
pub fn le_u64_bytes(n: u64) -> (r: Vec<u8>)
    ensures
        r@ == le_bytes(n as nat, 8),
{
    let mut r: Vec<u8> = Vec::new();
    let mut v: u64 = n;
    let mut i: usize = 0;
    while i < 8
        invariant
            i <= 8,
            r@ + le_bytes(v as nat, (8 - i) as nat) == le_bytes(n as nat, 8),
        decreases 8 - i,
    {
        let ghost before = r@;
        let ghost rest = le_bytes((v / 256) as nat, (8 - i - 1) as nat);
        assert(le_bytes(v as nat, (8 - i) as nat) == seq![(v % 256) as u8] + rest);
        r.push((v % 256) as u8);
        assert(r@ + rest =~= before + (seq![(v % 256) as u8] + rest));
        v = v / 256;
        i = i + 1;
    }
    assert(r@ + le_bytes(v as nat, 0) =~= r@);
    r
}

/// Appends the bytes of `b` to `out`.
fn append_bytes(out: &mut Vec<u8>, b: &[u8])
    ensures
        final(out)@ == old(out)@ + b@,
{
    let ghost start = out@;
    let n: usize = b.len();
    let mut i: usize = 0;
    while i < n
        invariant
            i <= n == b@.len(),
            out@ == start + b@.subrange(0, i as int),
        decreases n - i,
    {
        out.push(b[i]);
        assert(start + b@.subrange(0, i + 1) =~= (start + b@.subrange(0, i as int)).push(
            b@[i as int],
        ));
        i = i + 1;
    }
    assert(b@.subrange(0, n as int) =~= b@);
}

/// Appends `w` to `out`, preceded by its length as 8 little-endian bytes.
fn append_framed(out: &mut Vec<u8>, w: &[u8])
    ensures
        final(out)@ == old(out)@ + framed(w@),
{
    let ghost start = out@;
    let len = le_u64_bytes(w.len() as u64);
    append_bytes(out, len.as_slice());
    append_bytes(out, w);
    assert(out@ =~= start + framed(w@));
}

/// Builds the bytes that the signing digest hashes: the transaction hash,
/// the first witness with its signature zeroed, then the later witnesses,
/// each witness preceded by its length as 8 little-endian bytes.
pub fn signing_message(tx_hash: &[u8], witnesses: &Vec<Vec<u8>>) -> (r: Vec<u8>)
    requires
        digest_defined(witness_views(witnesses@)),
    ensures
        r@ == signing_message_spec(tx_hash@, witness_views(witnesses@)),
{
    let ghost ws = witness_views(witnesses@);
    let ghost canon = ws.update(0, zeroed_signature(ws[0]));
    let mut out: Vec<u8> = Vec::new();
    append_bytes(&mut out, tx_hash);
    let first = canonical_witness(witnesses[0].as_slice());
    append_framed(&mut out, first.as_slice());
    proof {
        let empty: Seq<Seq<u8>> = seq![];
        lemma_framed_all_push(empty, canon[0]);
        assert(empty.push(canon[0]) =~= canon.subrange(0, 1));
        assert(framed_all(empty) =~= seq![]);
        assert(out@ =~= tx_hash@ + framed_all(canon.subrange(0, 1)));
    }
    let n: usize = witnesses.len();
    let mut i: usize = 1;
    while i < n
        invariant
            1 <= i <= n == witnesses@.len() == ws.len() == canon.len(),
            ws == witness_views(witnesses@),
            canon == ws.update(0, zeroed_signature(ws[0])),
            out@ == tx_hash@ + framed_all(canon.subrange(0, i as int)),
        decreases n - i,
    {
        append_framed(&mut out, witnesses[i].as_slice());
        proof {
            assert(canon[i as int] == witnesses@[i as int]@);
            lemma_framed_all_push(canon.subrange(0, i as int), canon[i as int]);
            assert(canon.subrange(0, i as int).push(canon[i as int]) =~= canon.subrange(
                0,
                i + 1,
            ));
            assert(out@ =~= tx_hash@ + framed_all(canon.subrange(0, i + 1)));
        }
        i = i + 1;
    }
    assert(canon.subrange(0, n as int) =~= canon);
    out
}

/// Computes the signing digest of a transaction from its hash and its
/// witnesses, or `None` where the first witness is missing or holds no
/// signature. The digest does not depend on the signature's bytes.
pub fn signing_digest(tx_hash: &[u8], witnesses: &Vec<Vec<u8>>) -> (r: Option<Vec<u8>>)
    ensures
        r is Some <==> digest_defined(witness_views(witnesses@)),
        r is Some ==> r->Some_0@ == signing_digest_spec(tx_hash@, witness_views(witnesses@)),
        r is Some ==> r->Some_0@.len() == 32,
{
    if witnesses.len() == 0 {
        return None;
    }
    if !is_signed_witness_args(witnesses[0].as_slice()) {
        return None;
    }
    let message = signing_message(tx_hash, witnesses);
    Some(blake2b_256(message.as_slice()))
}

/// Computes the key-hash of a public key: the first 20 bytes of its hash.
pub fn key_hash_of(pubkey: &[u8]) -> (r: Vec<u8>)
    ensures
        r@ == key_hash_spec(pubkey@),
        r@.len() == KEY_HASH_LEN,
{
    let hash = blake2b_256(pubkey);
    let mut r: Vec<u8> = Vec::new();
    let mut i: usize = 0;
    while i < KEY_HASH_LEN
        invariant
            i <= KEY_HASH_LEN,
            hash@.len() == 32,
            r@ == hash@.subrange(0, i as int),
        decreases KEY_HASH_LEN - i,
    {
        r.push(hash[i]);
        assert(hash@.subrange(0, i + 1) =~= hash@.subrange(0, i as int).push(hash@[i as int]));
        i = i + 1;
    }
    r
}

/// The witnesses as the digest sees them: the first one's signature zeroed.
pub open spec fn canonical_witnesses(ws: Seq<Seq<u8>>) -> Seq<Seq<u8>> {
    ws.update(0, zeroed_signature(ws[0]))
}

/// Whether every witness has a length that 8 bytes can hold.
pub open spec fn lengths_fit(ws: Seq<Seq<u8>>) -> bool {
    forall|i: int| 0 <= i < ws.len() ==> #[trigger] ws[i].len() <= u64::MAX
}

proof fn lemma_le_bytes_len(n: nat, k: nat)
    ensures
        le_bytes(n, k).len() == k,
    decreases k,
{
    if k > 0 {
        lemma_le_bytes_len(n / 256, (k - 1) as nat);
    }
}

proof fn lemma_le_bytes_injective(n: nat, m: nat, k: nat)
    requires
        n < crate::args::pow256(k),
        m < crate::args::pow256(k),
        le_bytes(n, k) == le_bytes(m, k),
    ensures
        n == m,
    decreases k,
{
    if k > 0 {
        let p = crate::args::pow256((k - 1) as nat);
        let bn = le_bytes(n, k);
        assert(bn[0] == (n % 256) as u8);
        assert(le_bytes(m, k)[0] == (m % 256) as u8);
        assert(bn.drop_first() =~= le_bytes(n / 256, (k - 1) as nat));
        assert(le_bytes(m, k).drop_first() =~= le_bytes(m / 256, (k - 1) as nat));
        assert(n / 256 < p) by (nonlinear_arith)
            requires
                n < 256 * p,
        ;
        assert(m / 256 < p) by (nonlinear_arith)
            requires
                m < 256 * p,
        ;
        lemma_le_bytes_injective(n / 256, m / 256, (k - 1) as nat);
        assert(n == 256 * (n / 256) + n % 256);
        assert(m == 256 * (m / 256) + m % 256);
    }
}

proof fn lemma_framed_all_injective(a: Seq<Seq<u8>>, b: Seq<Seq<u8>>)
    requires
        lengths_fit(a),
        lengths_fit(b),
        framed_all(a) == framed_all(b),
    ensures
        a == b,
    decreases a.len(),
{
    if a.len() == 0 && b.len() == 0 {
        assert(a =~= b);
    } else if a.len() == 0 {
        lemma_le_bytes_len(b[0].len(), 8);
        assert(framed_all(b).len() >= 8);
    } else if b.len() == 0 {
        lemma_le_bytes_len(a[0].len(), 8);
        assert(framed_all(a).len() >= 8);
    } else {
        let fa = framed_all(a);
        let la: int = a[0].len() as int;
        let lb: int = b[0].len() as int;
        lemma_le_bytes_len(la as nat, 8);
        lemma_le_bytes_len(lb as nat, 8);
        assert(fa.subrange(0, 8) =~= le_bytes(la as nat, 8));
        assert(fa.subrange(0, 8) =~= le_bytes(lb as nat, 8));
        assert(crate::args::pow256(8) == 0x10000000000000000nat) by {
            reveal_with_fuel(crate::args::pow256, 9);
        }
        lemma_le_bytes_injective(la as nat, lb as nat, 8);
        assert(fa.subrange(8, 8 + la) =~= a[0]);
        assert(fa.subrange(8, 8 + la) =~= b[0]);
        assert(fa.subrange(8 + la, fa.len() as int) =~= framed_all(a.drop_first()));
        assert(fa.subrange(8 + la, fa.len() as int) =~= framed_all(b.drop_first()));
        assert(lengths_fit(a.drop_first())) by {
            assert forall|i: int| 0 <= i < a.drop_first().len() implies #[trigger] a.drop_first()[i].len()
                <= u64::MAX by {
                assert(a.drop_first()[i] == a[i + 1]);
            }
        }
        assert(lengths_fit(b.drop_first())) by {
            assert forall|i: int| 0 <= i < b.drop_first().len() implies #[trigger] b.drop_first()[i].len()
                <= u64::MAX by {
                assert(b.drop_first()[i] == b[i + 1]);
            }
        }
        lemma_framed_all_injective(a.drop_first(), b.drop_first());
        assert(a =~= seq![a[0]] + a.drop_first());
        assert(b =~= seq![b[0]] + b.drop_first());
    }
}

/// For one transaction hash, two lists of witnesses give the same signing
/// message exactly when they agree everywhere but in the first witness's
/// signature: the signature's bytes never change the message, and any other
/// witness byte does.
pub proof fn lemma_message_reflects_witnesses(tx_hash: Seq<u8>, ws: Seq<Seq<u8>>, other: Seq<Seq<u8>>)
    requires
        digest_defined(ws),
        digest_defined(other),
        lengths_fit(ws),
        lengths_fit(other),
    ensures
        signing_message_spec(tx_hash, ws) == signing_message_spec(tx_hash, other)
            <==> canonical_witnesses(ws) == canonical_witnesses(other),
{
    let ca = canonical_witnesses(ws);
    let cb = canonical_witnesses(other);
    if signing_message_spec(tx_hash, ws) == signing_message_spec(tx_hash, other) {
        let m = signing_message_spec(tx_hash, ws);
        assert(m.subrange(tx_hash.len() as int, m.len() as int) =~= framed_all(ca));
        assert(m.subrange(tx_hash.len() as int, m.len() as int) =~= framed_all(cb));
        assert(lengths_fit(ca)) by {
            assert forall|i: int| 0 <= i < ca.len() implies #[trigger] ca[i].len() <= u64::MAX by {
                if i > 0 {
                    assert(ca[i] == ws[i]);
                }
            }
        }
        assert(lengths_fit(cb)) by {
            assert forall|i: int| 0 <= i < cb.len() implies #[trigger] cb[i].len() <= u64::MAX by {
                if i > 0 {
                    assert(cb[i] == other[i]);
                }
            }
        }
        lemma_framed_all_injective(ca, cb);
    }
}

/// The signing digest is a function of the transaction hash and the witnesses
/// with the first one's signature zeroed: witnesses that differ only in the
/// signature have the same digest.
pub proof fn lemma_digest_ignores_signature(tx_hash: Seq<u8>, ws: Seq<Seq<u8>>, other: Seq<Seq<u8>>)
    requires
        canonical_witnesses(ws) == canonical_witnesses(other),
    ensures
        signing_digest_spec(tx_hash, ws) == signing_digest_spec(tx_hash, other),
{
}

} // verus!
