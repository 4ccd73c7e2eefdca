use vstd::prelude::*;
use crate::error::Error;

verus! {

/// Length of the owner's key-hash, which starts the lock arguments.
pub const OWNER_KEY_HASH_LEN: usize = 20;

/// Length of lock arguments that also carry a time limit.
pub const TIME_LOCKED_ARGS_LEN: usize = 28;

/// `256` to the power `k`.
pub open spec fn pow256(k: nat) -> nat
    decreases k,
{
    if k == 0 {
        1
    } else {
        256 * pow256((k - 1) as nat)
    }
}

/// The unsigned integer that `b` encodes, most significant byte first.
pub open spec fn be_value(b: Seq<u8>) -> nat
    decreases b.len(),
{
    if b.len() == 0 {
        0
    } else {
        be_value(b.drop_last()) * 256 + b.last() as nat
    }
}

/// Whether lock arguments of this content have a length that the lock accepts.
pub open spec fn valid_args_len(args: Seq<u8>) -> bool {
    args.len() == OWNER_KEY_HASH_LEN || args.len() == TIME_LOCKED_ARGS_LEN
}

/// The owner's key-hash: the first 20 bytes of the arguments.
pub open spec fn owner_key_hash_of(args: Seq<u8>) -> Seq<u8> {
    args.subrange(0, OWNER_KEY_HASH_LEN as int)
}

/// The time limit that the arguments set: the big-endian integer in bytes
/// 20 to 28 of 28-byte arguments, and none for 20-byte arguments.
pub open spec fn time_limit_of(args: Seq<u8>) -> Option<u64> {
    if args.len() == TIME_LOCKED_ARGS_LEN {
        Some(be_value(args.subrange(OWNER_KEY_HASH_LEN as int, TIME_LOCKED_ARGS_LEN as int)) as u64)
    } else {
        None
    }
}

/// Lock arguments, decoded.
#[derive(Debug, Clone, PartialEq, Eq)]
pub struct LockArgs {
    /// Hash of the owner's public key, 20 bytes.
    pub owner_key_hash: Vec<u8>,
    /// The earliest header timestamp at which the resource may be spent, if any.
    pub time_limit: Option<u64>,
}

impl LockArgs {
    /// Whether this is what `args` decodes to.
    pub open spec fn decodes(self, args: Seq<u8>) -> bool {
        &&& valid_args_len(args)
        &&& self.owner_key_hash@ == owner_key_hash_of(args)
        &&& self.time_limit == time_limit_of(args)
    }
}

/// Reads the bytes `b[start..start + 8]` as a big-endian unsigned integer.
pub fn read_be_u64(b: &[u8], start: usize) -> (r: u64)
    requires
        start + 8 <= b@.len(),
    ensures
        r as nat == be_value(b@.subrange(start as int, start + 8)),
{
    let mut acc: u64 = 0;
    let mut i: usize = start;
    let n: usize = b.len();
    let end: usize = start + 8;
    while i < end
        invariant
            start <= i <= end,
            end == start + 8,
            end <= b@.len(),
            acc as nat == be_value(b@.subrange(start as int, i as int)),
            acc < pow256((i - start) as nat),
        decreases end - i,
    {
        let ghost k: nat = (i - start) as nat;
        assert(pow256(k) <= pow256(7)) by {
            lemma_pow256_mono(k, 7);
        }
        assert(pow256(7) == 0x100000000000000nat) by {
            reveal_with_fuel(pow256, 8);
        }
        let ghost prev = acc as nat;
        let byte = b[i];
        assert(prev * 256 + (byte as nat) < pow256(k) * 256) by (nonlinear_arith)
            requires
                prev < pow256(k),
                byte < 256,
        ;
        acc = acc * 256 + byte as u64;
        assert(b@.subrange(start as int, i + 1).drop_last() =~= b@.subrange(start as int, i as int));
        i = i + 1;
    }
    acc
}

/// `pow256` grows with its exponent.
proof fn lemma_pow256_mono(a: nat, b: nat)
    requires
        a <= b,
    ensures
        pow256(a) <= pow256(b),
    decreases b,
{
    if a < b {
        lemma_pow256_mono(a, (b - 1) as nat);
    }
}

/// Decodes lock arguments: 20 bytes hold the owner's key-hash alone, 28 bytes
/// add a big-endian time limit; any other length is refused with `Encoding`.
pub fn decode_args(args: &[u8]) -> (r: Result<LockArgs, Error>)
    ensures
        r is Ok <==> valid_args_len(args@),
        r is Ok ==> r->Ok_0.decodes(args@),
        r is Err ==> r == Err::<LockArgs, Error>(Error::Encoding),
{
    let n = args.len();
    if n != OWNER_KEY_HASH_LEN && n != TIME_LOCKED_ARGS_LEN {
        return Err(Error::Encoding);
    }
    let mut owner_key_hash: Vec<u8> = Vec::new();
    let mut i: usize = 0;
    while i < OWNER_KEY_HASH_LEN
        invariant
            i <= OWNER_KEY_HASH_LEN <= args@.len(),
            owner_key_hash@ == args@.subrange(0, i as int),
        decreases OWNER_KEY_HASH_LEN - i,
    {
        owner_key_hash.push(args[i]);
        assert(args@.subrange(0, i + 1) =~= args@.subrange(0, i as int).push(args@[i as int]));
        i = i + 1;
    }
    let time_limit = if n == TIME_LOCKED_ARGS_LEN {
        Some(read_be_u64(args, OWNER_KEY_HASH_LEN))
    } else {
        None
    };
    Ok(LockArgs { owner_key_hash, time_limit })
}

} // verus!
