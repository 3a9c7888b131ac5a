use vstd::prelude::*;

verus! {

/// The SHA-256 digest of a byte sequence, as sha2 computes it.
pub uninterp spec fn sha256_of(bytes: Seq<u8>) -> Seq<u8>;

/// The bytes that a hashing state has absorbed, in order.
pub uninterp spec fn absorbed(state: Sha256State) -> Seq<u8>;

/// A running SHA-256 computation of sha2. `sha2::Sha256` names a generic
/// wrapper type that Verus cannot declare, so the state is held here,
/// hidden, and only the functions below reach it.
#[verifier::external_body]
pub struct Sha256State {
    inner: sha2::Sha256,
}

impl Sha256State {
    /// Relies on sha2's `Digest::new`: a fresh state has absorbed nothing.
    #[verifier::external_body]
    pub(crate) fn new() -> (r: Sha256State)
        ensures
            absorbed(r) == Seq::<u8>::empty(),
    {
        Sha256State { inner: <sha2::Sha256 as sha2::Digest>::new() }
    }

    /// Relies on sha2's `Digest::update`: the bytes are appended to what
    /// the state has absorbed.
    #[verifier::external_body]
    pub(crate) fn update(&mut self, data: &[u8])
        ensures
            absorbed(*final(self)) == absorbed(*old(self)) + data@,
    {
        sha2::Digest::update(&mut self.inner, data)
    }

    /// Relies on sha2's `Digest::finalize`: the digest of every byte
    /// absorbed.
    #[verifier::external_body]
    pub(crate) fn finalize(self) -> (r: [u8; 32])
        ensures
            r@ == sha256_of(absorbed(self)),
    {
        sha2::Digest::finalize(self.inner).into()
    }
}

/// Digest side of a chunked byte stream: every chunk that the stream yields
/// is fed once to a running hash, and the item passes through unchanged.
pub struct HashStream {
    hasher: Sha256State,
}

impl HashStream {
    /// The bytes of every chunk seen so far, in order.
    pub closed spec fn seen(&self) -> Seq<u8> {
        absorbed(self.hasher)
    }

    pub fn new() -> (r: HashStream)
        ensures
            r.seen() == Seq::<u8>::empty(),
    {
        HashStream { hasher: Sha256State::new() }
    }

    /// Takes the item that the inner stream yielded and hands it back;
    /// the bytes of a chunk are fed to the hash, an error or the end of the
    /// stream leaves it as it was.
    pub fn observe<E>(&mut self, item: Option<Result<Vec<u8>, E>>) -> (r: Option<
        Result<Vec<u8>, E>,
    >)
        ensures
            r == item,
            item matches Some(Ok(bytes)) ==> final(self).seen() == old(self).seen() + bytes@,
            !(item matches Some(Ok(_))) ==> final(self).seen() == old(self).seen(),
    {
        if let Some(Ok(bytes)) = &item {
            self.hasher.update(bytes.as_slice());
        }
        item
    }

    /// The digest of every byte seen; a stream not yet drained gives the
    /// digest of its prefix.
    pub fn hash_into(self) -> (r: [u8; 32])
        ensures
            r@ == sha256_of(self.seen()),
    {
        self.hasher.finalize()
    }

    /// The digest of every byte seen, as a vector.
    pub fn hash(self) -> (r: Vec<u8>)
        ensures
            r@ == sha256_of(self.seen()),
    {
        let d = self.hasher.finalize();
        vstd::slice::slice_to_vec(d.as_slice())
    }
}

/// Digest side of a reader: after each read, the bytes that the read added
/// to the buffer are fed once to a running hash.
pub struct HashRead {
    hasher: Sha256State,
}

impl HashRead {
    /// The bytes read so far, in order.
    pub closed spec fn seen(&self) -> Seq<u8> {
        absorbed(self.hasher)
    }

    pub fn new() -> (r: HashRead)
        ensures
            r.seen() == Seq::<u8>::empty(),
    {
        HashRead { hasher: Sha256State::new() }
    }

    /// `filled` is the filled part of the read buffer after a successful
    /// read, `before_len` its length before it; only the new bytes count.
    pub fn observe_filled(&mut self, filled: &[u8], before_len: usize)
        requires
            before_len <= filled@.len(),
        ensures
            final(self).seen() == old(self).seen() + filled@.subrange(
                before_len as int,
                filled@.len() as int,
            ),
    {
        let (_, new) = filled.split_at(before_len);
        self.hasher.update(new);
    }

    pub fn hash_into(self) -> (r: [u8; 32])
        ensures
            r@ == sha256_of(self.seen()),
    {
        self.hasher.finalize()
    }

    pub fn hash(self) -> (r: Vec<u8>)
        ensures
            r@ == sha256_of(self.seen()),
    {
        let d = self.hasher.finalize();
        vstd::slice::slice_to_vec(d.as_slice())
    }
}

} // verus!
