//! SHA-256 over data that comes in pieces.

use vstd::prelude::*;

verus! {

/// A SHA-256 computation under way: the `sha2` crate's hasher.
#[verifier::external_body]
pub struct Hasher {
    inner: sha2::Sha256,
}

/// The bytes that a hasher has taken in, in order.
pub uninterp spec fn absorbed(hasher: Hasher) -> Seq<u8>;

/// What SHA-256 makes of the data.
pub uninterp spec fn sha256(data: Seq<u8>) -> Seq<u8>;

impl Hasher {
    /// `sha2::Sha256::new`: a hasher that has taken in nothing.
    #[verifier::external_body]
    pub(crate) fn new() -> (hasher: Hasher)
        ensures
            absorbed(hasher) == Seq::<u8>::empty(),
    {
        Hasher { inner: sha2::Digest::new() }
    }

    /// `sha2::Digest::update`: the hasher takes in `data` behind what it has.
    #[verifier::external_body]
    pub(crate) fn update(&mut self, data: &[u8])
        ensures
            absorbed(*final(self)) == absorbed(*old(self)) + data@,
    {
        sha2::Digest::update(&mut self.inner, data)
    }

    /// `sha2::Digest::finalize`: the digest of all that the hasher has taken in,
    /// which depends on those bytes alone.
    #[verifier::external_body]
    pub(crate) fn finish(self) -> (digest: [u8; 32])
        ensures
            digest@ == sha256(absorbed(self)),
    {
        sha2::Digest::finalize(self.inner).into()
    }
}

/// The pieces one behind the other.
pub open spec fn concatenation(pieces: Seq<Seq<u8>>) -> Seq<u8>
    decreases pieces.len(),
{
    if pieces.len() == 0 {
        Seq::empty()
    } else {
        concatenation(pieces.drop_last()) + pieces.last()
    }
}

/// A digest of a file that is read piece by piece.
pub struct FileDigest {
    hasher: Hasher,
}

impl FileDigest {
    /// The bytes read so far.
    pub closed spec fn bytes(self) -> Seq<u8> {
        absorbed(self.hasher)
    }

    pub fn new() -> (out: Self)
        ensures
            out.bytes() == Seq::<u8>::empty(),
    {
        FileDigest { hasher: Hasher::new() }
    }

    /// Takes in the next piece.
    pub fn push(&mut self, piece: &[u8])
        ensures
            final(self).bytes() == old(self).bytes() + piece@,
    {
        self.hasher.update(piece);
    }

    /// The SHA-256 digest of all pieces.
    pub fn finish(self) -> (digest: [u8; 32])
        ensures
            digest@ == sha256(self.bytes()),
    {
        self.hasher.finish()
    }
}

/// The SHA-256 digest of a file, from the pieces that it was read in.
pub fn compute_file_sha256(pieces: &Vec<Vec<u8>>) -> (digest: [u8; 32])
    ensures
        digest@ == sha256(concatenation(Seq::new(pieces@.len(), |i: int| pieces@[i]@))),
{
    let ghost all = Seq::new(pieces@.len(), |i: int| pieces@[i]@);
    let mut state = FileDigest::new();
    let mut i: usize = 0;
    assert(concatenation(all.subrange(0, 0)) == Seq::<u8>::empty());
    while i < pieces.len()
        invariant
            i <= pieces@.len(),
            all == Seq::new(pieces@.len(), |i: int| pieces@[i]@),
            state.bytes() == concatenation(all.subrange(0, i as int)),
        decreases pieces@.len() - i,
    {
        state.push(pieces[i].as_slice());
        proof {
            assert(all.subrange(0, i + 1).drop_last() == all.subrange(0, i as int));
            assert(all.subrange(0, i + 1).last() == pieces@[i as int]@);
        }
        i = i + 1;
    }
    proof {
        assert(all.subrange(0, i as int) == all);
    }
    state.finish()
}

} // verus!
