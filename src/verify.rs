use vstd::prelude::*;
use crate::args::{decode_args, owner_key_hash_of, time_limit_of, valid_args_len, LockArgs};
use crate::digest::{key_hash_of, key_hash_spec};
use crate::error::Error;
use crate::time_gate::{check_time_limit, time_outcome};

verus! {

/// The contents of a recovered key-hash, or the code of a failed recovery.
pub open spec fn recovered_view(recovered: Result<Vec<u8>, i32>) -> Result<Seq<u8>, i32> {
    match recovered {
        Ok(h) => Ok(h@),
        Err(code) => Err(code),
    }
}

/// What the signature stage decides: a failed recovery is `Secp256k1` with
/// its code, a recovered key-hash other than the owner's is `WrongPubkey`.
pub open spec fn signer_outcome(expected: Seq<u8>, recovered: Result<Seq<u8>, i32>) -> Result<
    (),
    Error,
> {
    match recovered {
        Err(code) => Err(Error::Secp256k1(code)),
        Ok(h) => if h == expected {
            Ok(())
        } else {
            Err(Error::WrongPubkey)
        },
    }
}

/// What the stages before the signature decide: the length of the arguments,
/// then the time limit, if one is set.
pub open spec fn pre_signature_outcome(args: Seq<u8>, timestamps: Seq<u64>) -> Result<(), Error> {
    if !valid_args_len(args) {
        Err(Error::Encoding)
    } else {
        time_outcome(time_limit_of(args), timestamps)
    }
}

/// What the whole lock decides, the stages taken in order and the first
/// failure kept.
pub open spec fn lock_outcome(
    args: Seq<u8>,
    timestamps: Seq<u64>,
    recovered: Result<Seq<u8>, i32>,
) -> Result<(), Error> {
    match pre_signature_outcome(args, timestamps) {
        Err(e) => Err(e),
        Ok(_) => signer_outcome(owner_key_hash_of(args), recovered),
    }
}

/// Returns whether the two byte strings are equal.
fn bytes_equal(a: &[u8], b: &[u8]) -> (r: bool)
    ensures
        r == (a@ == b@),
{
    let n: usize = a.len();
    if n != b.len() {
        return false;
    }
    let mut i: usize = 0;
    while i < n
        invariant
            i <= n == a@.len() == b@.len(),
            forall|j: int| 0 <= j < i ==> a@[j] == b@[j],
        decreases n - i,
    {
        if a[i] != b[i] {
            return false;
        }
        i = i + 1;
    }
    assert(a@ =~= b@);
    true
}

/// The signature stage on the key-hash that recovery gave, or on the code
/// with which it failed.
pub fn check_signer(expected_key_hash: &[u8], recovered_key_hash: Result<Vec<u8>, i32>) -> (r:
    Result<(), Error>)
    ensures
        r == signer_outcome(expected_key_hash@, recovered_view(recovered_key_hash)),
{
    match recovered_key_hash {
        Err(code) => Err(Error::Secp256k1(code)),
        Ok(hash) => {
            if bytes_equal(hash.as_slice(), expected_key_hash) {
                Ok(())
            } else {
                Err(Error::WrongPubkey)
            }
        },
    }
}

/// The signature stage on the public key that recovery gave, or on the code
/// with which it failed: the key is hashed, and its key-hash compared.
pub fn check_recovered_key(expected_key_hash: &[u8], recovered_pubkey: Result<Vec<u8>, i32>) -> (r:
    Result<(), Error>)
    ensures
        r == signer_outcome(
            expected_key_hash@,
            match recovered_pubkey {
                Ok(p) => Ok(key_hash_spec(p@)),
                Err(code) => Err(code),
            },
        ),
{
    match recovered_pubkey {
        Err(code) => check_signer(expected_key_hash, Err(code)),
        Ok(pubkey) => check_signer(expected_key_hash, Ok(key_hash_of(pubkey.as_slice()))),
    }
}

/// The stages before the signature: decodes the arguments and checks the
/// time limit against the header timestamps. A host runs signature recovery
/// only when this succeeds.
pub fn check_before_signature(args: &[u8], timestamps: &[u64]) -> (r: Result<LockArgs, Error>)
    ensures
        r is Ok <==> pre_signature_outcome(args@, timestamps@) is Ok,
        r is Ok ==> r->Ok_0.decodes(args@),
        r is Err ==> pre_signature_outcome(args@, timestamps@) == Err::<(), Error>(r->Err_0),
{
    let lock = match decode_args(args) {
        Ok(lock) => lock,
        Err(e) => return Err(e),
    };
    match check_time_limit(lock.time_limit, timestamps) {
        Ok(()) => Ok(lock),
        Err(e) => Err(e),
    }
}

/// The whole lock: decodes the arguments, checks the time limit if one is
/// set, then compares the recovered key-hash with the owner's.
pub fn verify_lock(args: &[u8], timestamps: &[u64], recovered_key_hash: Result<Vec<u8>, i32>) -> (r:
    Result<(), Error>)
    ensures
        r == lock_outcome(args@, timestamps@, recovered_view(recovered_key_hash)),
{
    match check_before_signature(args, timestamps) {
        Err(e) => Err(e),
        Ok(lock) => check_signer(lock.owner_key_hash.as_slice(), recovered_key_hash),
    }
}

/// Arguments of a length other than 20 or 28 are refused with `Encoding`,
/// whatever the headers and the signature, and before the signature stage.
pub proof fn lemma_length_gate(args: Seq<u8>, timestamps: Seq<u64>, recovered: Result<Seq<u8>, i32>)
    requires
        args.len() != 20 && args.len() != 28,
    ensures
        pre_signature_outcome(args, timestamps) == Err::<(), Error>(Error::Encoding),
        lock_outcome(args, timestamps, recovered) == Err::<(), Error>(Error::Encoding),
{
}

/// With 20-byte arguments the lock accepts exactly when recovery gives the
/// owner's key-hash, and the headers make no difference.
pub proof fn lemma_plain_mode(
    args: Seq<u8>,
    timestamps: Seq<u64>,
    other_timestamps: Seq<u64>,
    recovered: Result<Seq<u8>, i32>,
)
    requires
        args.len() == 20,
    ensures
        lock_outcome(args, timestamps, recovered) is Ok <==> recovered == Ok::<Seq<u8>, i32>(
            args,
        ),
        lock_outcome(args, timestamps, recovered) == lock_outcome(
            args,
            other_timestamps,
            recovered,
        ),
{
    assert(owner_key_hash_of(args) =~= args);
}

/// With 28-byte arguments and time limit `L`, the time stage passes exactly
/// when some header timestamp is at least `L`; it fails with
/// `CurrentTimeNotGiven` without headers, and with `TimeLimitNotReached` when
/// every header falls short of `L`.
pub proof fn lemma_time_locked(args: Seq<u8>, timestamps: Seq<u64>)
    requires
        args.len() == 28,
    ensures
        ({
            let limit = time_limit_of(args)->Some_0;
            &&& time_limit_of(args) is Some
            &&& pre_signature_outcome(args, timestamps) is Ok <==> exists|i: int|
                0 <= i < timestamps.len() && limit <= #[trigger] timestamps[i]
            &&& timestamps.len() == 0 ==> pre_signature_outcome(args, timestamps) == Err::<
                (),
                Error,
            >(Error::CurrentTimeNotGiven)
            &&& (timestamps.len() > 0 && forall|i: int|
                0 <= i < timestamps.len() ==> #[trigger] timestamps[i] < limit)
                ==> pre_signature_outcome(args, timestamps) == Err::<(), Error>(
                Error::TimeLimitNotReached,
            )
        }),
{
}

/// The cheap checks decide first: malformed arguments give `Encoding` and a
/// failed time stage gives its own error, never `Secp256k1` or `WrongPubkey`,
/// whatever the signature.
pub proof fn lemma_fail_fast(args: Seq<u8>, timestamps: Seq<u64>, recovered: Result<Seq<u8>, i32>)
    ensures
        !valid_args_len(args) ==> lock_outcome(args, timestamps, recovered) == Err::<(), Error>(
            Error::Encoding,
        ),
        pre_signature_outcome(args, timestamps) is Err ==> lock_outcome(
            args,
            timestamps,
            recovered,
        ) == pre_signature_outcome(args, timestamps),
        pre_signature_outcome(args, timestamps) is Err ==> !(lock_outcome(
            args,
            timestamps,
            recovered,
        )->Err_0 is Secp256k1) && lock_outcome(args, timestamps, recovered) != Err::<(), Error>(
            Error::WrongPubkey,
        ),
{
}

/// A public key recovered from a signature over the digest is accepted when
/// its key-hash is the owner's: the stage hashes the key it is handed.
pub proof fn lemma_recovered_key_accepted(pubkey: Seq<u8>)
    ensures
        signer_outcome(key_hash_spec(pubkey), Ok(key_hash_spec(pubkey))) == Ok::<(), Error>(()),
{
}

} // verus!
