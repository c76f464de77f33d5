//! Native baseline runner: the reference computation — iterated Keccak-256
//! hashing over a fixed 32-byte buffer — run directly, outside any
//! virtualization layer, as the performance floor. A sanity guard rejects a
//! run whose output buffer is still all zero: that would mean the compiler
//! eliminated the "unused" computation and the near-zero time is
//! meaningless. The guard runs before reporting, never after.

use vstd::prelude::*;

use sha3::Digest;
use sha3::Keccak256;

use crate::error::HarnessError;

verus! {

/// The Keccak-256 digest of a byte sequence, named: its value is a function
/// of the input bytes alone and is not restated here.
pub uninterp spec fn keccak_of(input: Seq<u8>) -> Seq<u8>;

/// Relies on sha3::Keccak256 through the Digest trait: the Keccak-256 digest
/// of the input, 32 bytes long, a function of the input bytes alone.
#[verifier::external_body]
fn keccak(data: &Vec<u8>) -> (r: Vec<u8>)
    ensures
        r@ == keccak_of(data@),
        r@.len() == 32,
{
    Keccak256::digest(data.as_slice()).to_vec()
}

/// The fixed input: a 32-byte buffer of zeros.
pub open spec fn zero_block() -> Seq<u8> {
    Seq::new(32, |i: int| 0u8)
}

/// `n` rounds of Keccak-256, each fed the previous round's digest.
pub open spec fn iterate_keccak(data: Seq<u8>, n: nat) -> Seq<u8>
    decreases n,
{
    if n == 0 {
        data
    } else {
        keccak_of(iterate_keccak(data, (n - 1) as nat))
    }
}

/// Whether a buffer is still in its all-zero initial state.
pub open spec fn all_zero(s: Seq<u8>) -> bool {
    forall|i: int| 0 <= i < s.len() ==> s[i] == 0
}

/// Runs the reference computation: `iterations` rounds of Keccak-256 over a
/// buffer that starts as 32 zero bytes.
pub fn run_reference_computation(iterations: usize) -> (r: Vec<u8>)
    ensures
        r@ == iterate_keccak(zero_block(), iterations as nat),
{
    let mut data: Vec<u8> = vec![0u8; 32];
    assert(data@ =~= zero_block());
    let mut i: usize = 0;
    while i < iterations
        invariant
            i <= iterations,
            data@ == iterate_keccak(zero_block(), i as nat),
        decreases iterations - i,
    {
        data = keccak(&data);
        i = i + 1;
    }
    data
}

/// The guard against optimizer elision: a buffer that is still all zero
/// makes the measurement invalid; any other buffer passes.
pub fn check_measurement(data: &Vec<u8>) -> (r: Result<(), HarnessError>)
    ensures
        r is Ok <==> !all_zero(data@),
        r is Err ==> r == Err::<(), HarnessError>(HarnessError::InvalidMeasurementError),
{
    let n = data.len();
    let mut i: usize = 0;
    while i < n
        invariant
            i <= n,
            n == data@.len(),
            forall|j: int| 0 <= j < i ==> data@[j] == 0,
        decreases n - i,
    {
        if data[i] != 0 {
            return Ok(());
        }
        i = i + 1;
    }
    Err(HarnessError::InvalidMeasurementError)
}

/// The whole baseline: run the reference computation, then the sanity guard,
/// before any reporting. An all-zero output is flagged invalid, never
/// silently reported.
pub fn native_baseline(iterations: usize) -> (r: Result<Vec<u8>, HarnessError>)
    ensures
        !all_zero(iterate_keccak(zero_block(), iterations as nat)) ==> (r is Ok && r->Ok_0@
            == iterate_keccak(zero_block(), iterations as nat)),
        all_zero(iterate_keccak(zero_block(), iterations as nat)) ==> r == Err::<
            Vec<u8>,
            HarnessError,
        >(HarnessError::InvalidMeasurementError),
{
    let data = run_reference_computation(iterations);
    match check_measurement(&data) {
        Ok(_) => Ok(data),
        Err(e) => Err(e),
    }
}

/// Replaying the reference computation is deterministic: two runs over the
/// same iteration count compute the same output buffer.
pub proof fn lemma_baseline_replay(a: Seq<u8>, b: Seq<u8>, n: nat)
    requires
        a == iterate_keccak(zero_block(), n),
        b == iterate_keccak(zero_block(), n),
    ensures
        a == b,
{
}

} // verus!
