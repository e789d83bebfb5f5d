use vstd::prelude::*;

verus! {

/// Whether two byte strings are equal.
pub fn bytes_eq(a: &Vec<u8>, b: &Vec<u8>) -> (r: bool)
    ensures
        r == (a@ == b@),
{
    if a.len() != b.len() {
        return false;
    }
    let mut i: usize = 0;
    while i < a.len()
        invariant
            a@.len() == b@.len(),
            i <= a@.len(),
            forall|j: int| 0 <= j < i ==> a@[j] == b@[j],
        decreases a@.len() - i,
    {
        if a[i] != b[i] {
            return false;
        }
        i = i + 1;
    }
    assert(a@ =~= b@);
    true
}

/// The value last written under `key` in a log of writes, if any.
pub open spec fn lookup(log: Seq<(Seq<u8>, Seq<u8>)>, key: Seq<u8>) -> Option<Seq<u8>>
    decreases log.len(),
{
    if log.len() == 0 {
        None
    } else if log.last().0 == key {
        Some(log.last().1)
    } else {
        lookup(log.drop_last(), key)
    }
}

/// A node-local key-value store outside consensus: `put` overwrites, `get` returns the
/// value last written under a key. It is advisory and never consulted for ledger state.
pub struct LocalStore {
    writes: Vec<(Vec<u8>, Vec<u8>)>,
}

impl LocalStore {
    /// The writes made to the store, oldest first.
    pub closed spec fn log(&self) -> Seq<(Seq<u8>, Seq<u8>)> {
        self.writes@.map_values(|p: (Vec<u8>, Vec<u8>)| (p.0@, p.1@))
    }

    /// The value that the store holds under `key`.
    pub open spec fn value_at(&self, key: Seq<u8>) -> Option<Seq<u8>> {
        lookup(self.log(), key)
    }

    /// An empty store.
    pub fn new() -> (r: LocalStore)
        ensures
            forall|k: Seq<u8>| #[trigger] r.value_at(k).is_none(),
    {
        let r = LocalStore { writes: Vec::new() };
        assert(r.log() =~= Seq::<(Seq<u8>, Seq<u8>)>::empty());
        r
    }

    /// Writes `value` under `key`, replacing what was there.
    pub fn put(&mut self, key: Vec<u8>, value: Vec<u8>)
        ensures
            final(self).value_at(key@) == Some(value@),
            forall|k: Seq<u8>| k != key@ ==> #[trigger] final(self).value_at(k) == old(self).value_at(k),
    {
        let ghost k0 = key@;
        let ghost v0 = value@;
        self.writes.push((key, value));
        assert(self.log().drop_last() =~= old(self).log());
        assert(self.log().last() == (k0, v0));
    }

    /// The value last written under `key`, or `None` where nothing was.
    pub fn get(&self, key: &Vec<u8>) -> (r: Option<Vec<u8>>)
        ensures
            match r {
                Some(v) => self.value_at(key@) == Some(v@),
                None => self.value_at(key@).is_none(),
            },
    {
        let mut i: usize = self.writes.len();
        assert(self.log().take(i as int) =~= self.log());
        while i > 0
            invariant
                self.log().len() == self.writes@.len(),
                i <= self.writes@.len(),
                lookup(self.log(), key@) == lookup(self.log().take(i as int), key@),
            decreases i,
        {
            let ghost t = self.log().take(i as int);
            assert(t.drop_last() =~= self.log().take(i - 1));
            if bytes_eq(&self.writes[i - 1].0, key) {
                let v = self.writes[i - 1].1.clone();
                assert(v@ =~= self.writes@[i - 1].1@);
                return Some(v);
            }
            i = i - 1;
        }
        assert(self.log().take(0) =~= Seq::<(Seq<u8>, Seq<u8>)>::empty());
        None
    }
}

/// What the worker, or an `extrinsic` call, leaves in the local store for one block:
/// a tag and a number.
#[derive(Clone, Debug, Default)]
pub struct IndexingData(pub Vec<u8>, pub u64);

/// The SCALE encoding of a record with the given tag and number.
pub uninterp spec fn scale_record(tag: Seq<u8>, value: u64) -> Seq<u8>;

/// Relies on parity-scale-codec's `Encode` for the pair `(Vec<u8>, u64)`, the layout that
/// `#[derive(Encode)]` gives the record: a compact length, the tag, the number.
#[verifier::external_body]
fn scale_encode_record(tag: &Vec<u8>, value: u64) -> (r: Vec<u8>)
    requires
        tag@.len() <= u32::MAX,
    ensures
        r@ == scale_record(tag@, value),
{
    parity_scale_codec::Encode::encode(&(tag, value))
}

impl IndexingData {
    /// The bytes under which this record is stored. SCALE encodes lengths up to `u32::MAX`.
    pub fn encode(&self) -> (r: Vec<u8>)
        requires
            self.0@.len() <= u32::MAX,
        ensures
            r@ == scale_record(self.0@, self.1),
    {
        scale_encode_record(&self.0, self.1)
    }
}

} // verus!
