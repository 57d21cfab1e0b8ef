//! The durable store as the endpoints see it, and a store that lives in
//! memory.

use vstd::prelude::*;

verus! {

/// Why a store operation did not take place.
#[derive(Clone, Copy, Debug, PartialEq, Eq, Structural)]
pub enum StoreError {
    /// No worker could take the operation.
    Unavailable,
    /// The store itself failed.
    Failed,
}

/// A store of byte values under byte keys. Each key holds at most one value;
/// a put overwrites, and a put that fails leaves the store as it was.
pub trait Database: Sync + Send {
    /// What the store holds.
    spec fn view(&self) -> Map<Seq<u8>, Seq<u8>>;

    /// Stores `value` under `key`, in place of what was there.
    fn put_require(&mut self, key: &[u8], value: &[u8]) -> (r: Result<(), StoreError>)
        ensures
            r is Ok ==> final(self).view() == old(self).view().insert(key@, value@),
            r is Err ==> final(self).view() == old(self).view(),
    ;

    /// The value under `key`, if there is one.
    fn get_require(&self, key: &[u8]) -> (r: Result<Option<Vec<u8>>, StoreError>)
        ensures
            match r {
                Ok(Some(value)) => self.view().contains_key(key@) && self.view()[key@] == value@,
                Ok(None) => !self.view().contains_key(key@),
                Err(_) => true,
            },
    ;
}

/// Whether two byte strings are the same.
pub fn bytes_eq(a: &[u8], b: &[u8]) -> (same: bool)
    ensures
        same == (a@ == b@),
{
    if a.len() != b.len() {
        return false;
    }
    let mut i: usize = 0;
    while i < a.len()
        invariant
            a@.len() == b@.len(),
            0 <= i <= a@.len(),
            forall|j: int| 0 <= j < i ==> a@[j] == b@[j],
        decreases a@.len() - i,
    {
        if a[i] != b[i] {
            return false;
        }
        i += 1;
    }
    assert(a@ =~= b@);
    true
}

/// The map that a list of puts amounts to: a later put on a key overrides an
/// earlier one.
pub open spec fn map_of_puts(puts: Seq<(Vec<u8>, Vec<u8>)>) -> Map<Seq<u8>, Seq<u8>>
    decreases puts.len(),
{
    if puts.len() == 0 {
        Map::empty()
    } else {
        map_of_puts(puts.drop_last()).insert(puts.last().0@, puts.last().1@)
    }
}

/// A store in memory, for a service that needs no disk. It never fails.
pub struct MemoryStore {
    puts: Vec<(Vec<u8>, Vec<u8>)>,
}

impl MemoryStore {
    /// An empty store.
    pub fn new() -> (store: MemoryStore)
        ensures
            store.view() == Map::<Seq<u8>, Seq<u8>>::empty(),
    {
        MemoryStore { puts: Vec::new() }
    }
}

/// A copy of a byte string.
fn copy_bytes(bytes: &[u8]) -> (copy: Vec<u8>)
    ensures
        copy@ == bytes@,
{
    let mut copy: Vec<u8> = Vec::new();
    let mut i: usize = 0;
    while i < bytes.len()
        invariant
            0 <= i <= bytes@.len(),
            copy@ == bytes@.take(i as int),
        decreases bytes@.len() - i,
    {
        copy.push(bytes[i]);
        assert(bytes@.take(i + 1) =~= bytes@.take(i as int).push(bytes@[i as int]));
        i += 1;
    }
    assert(bytes@.take(bytes@.len() as int) =~= bytes@);
    copy
}

impl Database for MemoryStore {
    closed spec fn view(&self) -> Map<Seq<u8>, Seq<u8>> {
        map_of_puts(self.puts@)
    }

    fn put_require(&mut self, key: &[u8], value: &[u8]) -> (r: Result<(), StoreError>)
        ensures
            r is Ok,
    {
        let entry = (copy_bytes(key), copy_bytes(value));
        self.puts.push(entry);
        assert(self.puts@.drop_last() =~= old(self).puts@);
        Ok(())
    }

    fn get_require(&self, key: &[u8]) -> (r: Result<Option<Vec<u8>>, StoreError>)
        ensures
            r is Ok,
    {
        let mut i: usize = self.puts.len();
        assert(self.puts@.take(i as int) =~= self.puts@);
        while i > 0
            invariant
                0 <= i <= self.puts@.len(),
                map_of_puts(self.puts@).contains_key(key@) == map_of_puts(
                    self.puts@.take(i as int),
                ).contains_key(key@),
                map_of_puts(self.puts@).contains_key(key@) ==> map_of_puts(self.puts@)[key@]
                    == map_of_puts(self.puts@.take(i as int))[key@],
            decreases i,
        {
            let ghost prefix = self.puts@.take(i as int);
            assert(prefix.drop_last() =~= self.puts@.take(i - 1));
            assert(prefix.last() == self.puts@[i - 1]);
            i -= 1;
            if bytes_eq(self.puts[i].0.as_slice(), key) {
                return Ok(Some(copy_bytes(self.puts[i].1.as_slice())));
            }
        }
        assert(self.puts@.take(0) =~= Seq::<(Vec<u8>, Vec<u8>)>::empty());
        Ok(None)
    }
}

} // verus!
