//! Hash functions with a one-shot and an incremental interface, and the
//! check that the two agree.
use vstd::prelude::*;

verus! {

/// Why a one-shot hash was refused.
#[derive(Clone, Copy, Debug, PartialEq, Eq, Structural)]
pub enum HashError {
    InvalidPayloadLength,
    Unknown,
}

/// Why an update of an incremental state was refused.
#[derive(Clone, Copy, Debug, PartialEq, Eq, Structural)]
pub enum UpdateError {
    InvalidPayloadLength,
    MaximumLengthExceeded,
    Unknown,
}

/// A hash function with an `OUTPUT_LEN`-byte digest, computed in one shot.
pub trait Hash<const OUTPUT_LEN: usize> {
    /// Writes the digest of `payload` to `digest`.
    fn hash(digest: &mut [u8; OUTPUT_LEN], payload: &[u8]) -> Result<(), HashError>;
}

/// The same hash function, fed in pieces through a state.
pub trait DigestIncremental<const OUTPUT_LEN: usize>: Hash<OUTPUT_LEN> {
    type IncrementalState;

    /// Feeds `payload` to the state.
    fn update(state: &mut Self::IncrementalState, payload: &[u8]) -> Result<(), UpdateError>;

    /// Writes the digest of all that was fed to `digest`, and empties the state.
    fn finish(state: &mut Self::IncrementalState, digest: &mut [u8; OUTPUT_LEN]);
}

/// Why `simple` could not compare the two digests.
#[derive(Clone, Copy, Debug, PartialEq, Eq, Structural)]
pub enum DigestFailure {
    Hash(HashError),
    Update(UpdateError),
}

/// The two digests of one payload, and whether they are the same.
#[derive(Clone, Copy, Debug)]
pub struct DigestComparison<const OUTPUT_LEN: usize> {
    pub oneshot: [u8; OUTPUT_LEN],
    pub incremental: [u8; OUTPUT_LEN],
    pub agree: bool,
}

/// Whether two digests hold the same bytes.
pub fn digests_agree<const OUTPUT_LEN: usize>(
    a: &[u8; OUTPUT_LEN],
    b: &[u8; OUTPUT_LEN],
) -> (r: bool)
    ensures
        r == (a@ == b@),
{
    let mut i: usize = 0;
    while i < OUTPUT_LEN
        invariant
            0 <= i <= OUTPUT_LEN,
            a@.len() == OUTPUT_LEN,
            b@.len() == OUTPUT_LEN,
            forall|j: int| 0 <= j < i ==> a@[j] == b@[j],
        decreases OUTPUT_LEN - i,
    {
        if a[i] != b[i] {
            return false;
        }
        i = i + 1;
    }
    assert(a@ =~= b@);
    true
}

/// Hashes the bytes 1 to 5 both in one shot and through `state` (a fresh
/// state, as the hash function's user hands it over), and compares the two
/// digests. A refusal by either interface is passed on.
pub fn simple<
    const OUTPUT_LEN: usize,
    IncrementalState,
    HashImplementation: DigestIncremental<OUTPUT_LEN, IncrementalState = IncrementalState> + Hash<OUTPUT_LEN>,
>(state: IncrementalState) -> (r: Result<DigestComparison<OUTPUT_LEN>, DigestFailure>)
    ensures
        r matches Ok(c) ==> c.agree == (c.oneshot@ == c.incremental@),
{
    let payload: [u8; 5] = [1, 2, 3, 4, 5];
    let mut digest_oneshot = [0u8; OUTPUT_LEN];
    match HashImplementation::hash(&mut digest_oneshot, payload.as_slice()) {
        Ok(()) => {},
        Err(e) => {
            return Err(DigestFailure::Hash(e));
        },
    }
    let mut state = state;
    let mut digest_incremental = [0u8; OUTPUT_LEN];
    match HashImplementation::update(&mut state, payload.as_slice()) {
        Ok(()) => {},
        Err(e) => {
            return Err(DigestFailure::Update(e));
        },
    }
    HashImplementation::finish(&mut state, &mut digest_incremental);
    let agree = digests_agree(&digest_oneshot, &digest_incremental);
    Ok(DigestComparison { oneshot: digest_oneshot, incremental: digest_incremental, agree })
}

} // verus!
