//! Interned strings.
//!
//! A pool stores every string once and hands out where it is stored. The strings are found again by
//! a hash of their bytes.

use vstd::prelude::*;
use vstd::string::*;
use vstd::utf8::{encode_utf8, valid_utf8};

use dashmap::DashMap;
use smallvec::SmallVec;
use std::collections::HashMap;

verus! {

pub const FX_INIT: u64 = 0xcbf29ce484222325;

pub const FX_PRIME: u64 = 0x100000001b3;

/// A string of a pool: where its bytes start and how many there are. Strings of one pool are equal
/// where they are the same; those of different pools are compared by what they hold.
#[derive(Clone, Copy, Debug, PartialEq, Eq, Structural)]
pub struct VmString {
    pub offset: usize,
    pub length: usize,
}

/// A concurrent hash map from hashes to strings, most of which have a hash of their own.
#[verifier::external_body]
#[derive(Debug)]
pub struct Buckets {
    map: DashMap<u64, SmallVec<[VmString; 2]>>,
}

/// The strings of a map by their hashes.
pub uninterp spec fn buckets_of(buckets: Buckets) -> Map<u64, Seq<VmString>>;

/// `DashMap::new`: a map without entries.
#[verifier::external_body]
fn empty_buckets() -> (fresh: Buckets)
    ensures
        (buckets_of(fresh) == Map::<u64, Seq<VmString>>::empty()),
{
    Buckets { map: DashMap::new() }
}

/// `DashMap::get`: the value of a key, copied into a vector, if the key has one.
#[verifier::external_body]
fn get_bucket(buckets: &Buckets, hash: u64) -> (bucket: Option<Vec<VmString>>)
    ensures
        match bucket {
            Some(found) => buckets_of(*buckets).contains_key(hash) && found@ == buckets_of(
                *buckets,
            )[hash],
            None => !buckets_of(*buckets).contains_key(hash),
        },
{
    match buckets.map.get(&hash) {
        Some(found) => Some(found.to_vec()),
        None => None,
    }
}

/// `DashMap::insert`: the value of one key is set, those of all others stay.
#[verifier::external_body]
fn set_bucket(buckets: &mut Buckets, hash: u64, bucket: Vec<VmString>)
    ensures
        buckets_of(*final(buckets)) == buckets_of(*old(buckets)).insert(hash, bucket@),
{
    buckets.map.insert(hash, SmallVec::from_vec(bucket));
}

/// `std::str::from_utf8`: the text whose encoding the bytes are, if they are one.
#[verifier::external_body]
fn text_of_bytes(bytes: &[u8]) -> (text: Option<&str>)
    ensures
        match text {
            Some(found) => encode_utf8(found@) == bytes@,
            None => !valid_utf8(bytes@),
        },
{
    std::str::from_utf8(bytes).ok()
}

/// The hash of bytes: each is mixed in by exclusive or, and the result multiplied.
pub open spec fn hashed(bytes: Seq<u8>) -> u64
    decreases bytes.len(),
{
    if bytes.len() == 0 {
        FX_INIT
    } else {
        ((hashed(bytes.drop_last()) ^ (bytes.last() as u64)) as u64).wrapping_mul(FX_PRIME)
    }
}

fn hash_bytes(bytes: &[u8]) -> (hash: u64)
    ensures
        hash == hashed(bytes@),
{
    let mut hash: u64 = FX_INIT;
    let mut done: usize = 0;
    while done < bytes.len()
        invariant
            done <= bytes@.len(),
            hash == hashed(bytes@.take(done as int)),
        decreases bytes.len() - done,
    {
        proof {
            assert(bytes@.take(done + 1).drop_last() == bytes@.take(done as int));
        }
        hash = (hash ^ (bytes[done] as u64)).wrapping_mul(FX_PRIME);
        done = done + 1;
    }
    assert(bytes@.take(bytes@.len() as int) == bytes@);
    hash
}

/// The bytes of a string in a buffer.
pub open spec fn bytes_at(buffer: Seq<u8>, string: VmString) -> Seq<u8> {
    buffer.subrange(string.offset as int, string.offset + string.length)
}

pub open spec fn lies_in(buffer: Seq<u8>, string: VmString) -> bool {
    string.offset + string.length <= buffer.len()
}

#[derive(Debug)]
pub struct StringPool {
    data_buffer: Vec<u8>,
    interned_strings: Buckets,
}

impl StringPool {
    /// The stored bytes.
    pub closed spec fn buffer(self) -> Seq<u8> {
        self.data_buffer@
    }

    /// The stored strings by their hashes.
    pub closed spec fn buckets(self) -> Map<u64, Seq<VmString>> {
        buckets_of(self.interned_strings)
    }

    /// The strings with a hash.
    pub open spec fn bucket(self, hash: u64) -> Seq<VmString> {
        if self.buckets().contains_key(hash) {
            self.buckets()[hash]
        } else {
            Seq::empty()
        }
    }

    /// Whether the string at a place of a bucket is stored where it is said to be, with that hash.
    pub open spec fn well_placed(self, hash: u64, i: int) -> bool {
        let string = self.bucket(hash)[i];
        lies_in(self.buffer(), string) && hashed(bytes_at(self.buffer(), string)) == hash
    }

    /// Whether the strings at two places of a bucket differ.
    pub open spec fn different(self, hash: u64, i: int, j: int) -> bool {
        bytes_at(self.buffer(), self.bucket(hash)[i]) != bytes_at(
            self.buffer(),
            self.bucket(hash)[j],
        )
    }

    /// Every string is stored under its hash, and none is stored twice.
    pub open spec fn wf(self) -> bool {
        &&& forall|hash: u64, i: int|
            0 <= i < self.bucket(hash).len() ==> #[trigger] self.well_placed(hash, i)
        &&& forall|hash: u64, i: int, j: int|
            0 <= i < j < self.bucket(hash).len() ==> #[trigger] self.different(hash, i, j)
    }

    /// Whether a string of the pool has some bytes, and which place of its bucket it has.
    pub open spec fn stored_at(self, bytes: Seq<u8>, i: int) -> bool {
        0 <= i < self.bucket(hashed(bytes)).len() && bytes_at(
            self.buffer(),
            self.bucket(hashed(bytes))[i],
        ) == bytes
    }

    pub open spec fn has(self, bytes: Seq<u8>) -> bool {
        exists|i: int| self.stored_at(bytes, i)
    }

    /// The string of the pool with some bytes.
    pub open spec fn string_of(self, bytes: Seq<u8>) -> VmString {
        self.bucket(hashed(bytes))[choose|i: int| self.stored_at(bytes, i)]
    }

    /// The strings of the pool by their bytes.
    pub open spec fn strings(self) -> Map<Seq<u8>, VmString> {
        Map::new(|bytes: Seq<u8>| self.has(bytes), |bytes: Seq<u8>| self.string_of(bytes))
    }

    /// Whether a pool still holds what another one held, at the same places.
    pub open spec fn keeps(self, earlier: StringPool) -> bool {
        forall|string: VmString| #[trigger]
            lies_in(earlier.buffer(), string) ==> lies_in(self.buffer(), string) && bytes_at(
                self.buffer(),
                string,
            ) == bytes_at(earlier.buffer(), string)
    }

    pub fn new() -> (pool: StringPool)
        ensures
            pool.wf(),
            pool.buffer() == Seq::<u8>::empty(),
            pool.strings() == Map::<Seq<u8>, VmString>::empty(),
    {
        let pool = StringPool { data_buffer: Vec::new(), interned_strings: empty_buckets() };
        assert(pool.strings() == Map::<Seq<u8>, VmString>::empty());
        pool
    }

    /// How many bytes are stored.
    pub fn len(&self) -> (len: usize)
        ensures
            len == self.buffer().len(),
    {
        self.data_buffer.len()
    }

    fn matches_at(&self, string: VmString, bytes: &[u8]) -> (same: bool)
        requires
            lies_in(self.buffer(), string),
        ensures
            same == (bytes_at(self.buffer(), string) == bytes@),
    {
        if string.length != bytes.len() {
            return false;
        }
        let mut done: usize = 0;
        while done < bytes.len()
            invariant
                lies_in(self.buffer(), string),
                string.length == bytes@.len(),
                done <= bytes@.len(),
                forall|i: int| 0 <= i < done ==> self.buffer()[string.offset + i] == bytes@[i],
                self.buffer() == self.data_buffer@,
            decreases bytes.len() - done,
        {
            let total: usize = self.data_buffer.len();
            if self.data_buffer[string.offset + done] != bytes[done] {
                assert(bytes_at(self.buffer(), string)[done as int] != bytes@[done as int]);
                return false;
            }
            done = done + 1;
        }
        assert(bytes_at(self.buffer(), string) == bytes@);
        true
    }

    /// The string with some bytes among strings that are stored.
    fn find(&self, bucket: &Vec<VmString>, bytes: &[u8]) -> (place: Option<usize>)
        requires
            forall|i: int| 0 <= i < bucket@.len() ==> lies_in(self.buffer(), #[trigger] bucket@[i]),
        ensures
            match place {
                Some(found) => found < bucket@.len() && bytes_at(self.buffer(), bucket@[found as int])
                    == bytes@,
                None => forall|i: int|
                    0 <= i < bucket@.len() ==> bytes_at(self.buffer(), #[trigger] bucket@[i])
                        != bytes@,
            },
    {
        let mut place: usize = 0;
        while place < bucket.len()
            invariant
                place <= bucket@.len(),
                forall|i: int|
                    0 <= i < bucket@.len() ==> lies_in(self.buffer(), #[trigger] bucket@[i]),
                forall|i: int|
                    0 <= i < place ==> bytes_at(self.buffer(), #[trigger] bucket@[i]) != bytes@,
            decreases bucket.len() - place,
        {
            if self.matches_at(bucket[place], bytes) {
                return Some(place);
            }
            place = place + 1;
        }
        None
    }

    fn store(&mut self, bytes: &[u8]) -> (string: VmString)
        ensures
            final(self).buffer() == old(self).buffer() + bytes@,
            final(self).buckets() == old(self).buckets(),
            string.offset == old(self).buffer().len(),
            string.length == bytes@.len(),
    {
        let offset: usize = self.data_buffer.len();
        let mut done: usize = 0;
        while done < bytes.len()
            invariant
                done <= bytes@.len(),
                self.data_buffer@ == old(self).data_buffer@ + bytes@.take(done as int),
                self.interned_strings == old(self).interned_strings,
            decreases bytes.len() - done,
        {
            self.data_buffer.push(bytes[done]);
            done = done + 1;
        }
        assert(bytes@.take(bytes@.len() as int) == bytes@);
        VmString { offset, length: bytes.len() }
    }

    pub fn intern(&mut self, text: &str) -> (string: VmString)
        requires
            old(self).wf(),
        ensures
            final(self).wf(),
            final(self).keeps(*old(self)),
            lies_in(final(self).buffer(), string),
            bytes_at(final(self).buffer(), string) == encode_utf8(text@),
            if old(self).strings().contains_key(encode_utf8(text@)) {
                &&& string == old(self).strings()[encode_utf8(text@)]
                &&& *final(self) == *old(self)
            } else {
                final(self).strings() == old(self).strings().insert(encode_utf8(text@), string)
            },
    {
        self.intern_bytes(text.as_bytes())
    }

    /// The string with some bytes: the one that is stored already, or else a new one.
    pub fn intern_bytes(&mut self, bytes: &[u8]) -> (string: VmString)
        requires
            old(self).wf(),
        ensures
            final(self).wf(),
            final(self).keeps(*old(self)),
            lies_in(final(self).buffer(), string),
            bytes_at(final(self).buffer(), string) == bytes@,
            if old(self).strings().contains_key(bytes@) {
                &&& string == old(self).strings()[bytes@]
                &&& *final(self) == *old(self)
            } else {
                final(self).strings() == old(self).strings().insert(bytes@, string)
            },
    {
        let hash: u64 = hash_bytes(bytes);
        let mut bucket: Vec<VmString> = match get_bucket(&self.interned_strings, hash) {
            Some(found) => found,
            None => Vec::new(),
        };
        assert(bucket@ == self.bucket(hash));
        assert forall|i: int| 0 <= i < bucket@.len() implies lies_in(
            self.buffer(),
            #[trigger] bucket@[i],
        ) by {
            assert(self.well_placed(hash, i));
        }
        match self.find(&bucket, bytes) {
            Some(place) => {
                proof {
                    assert(self.stored_at(bytes@, place as int));
                    let i = choose|i: int| self.stored_at(bytes@, i);
                    if i < place {
                        assert(self.different(hash, i, place as int));
                    } else if place < i {
                        assert(self.different(hash, place as int, i));
                    }
                }
                bucket[place]
            },
            None => {
                proof {
                    assert(!self.has(bytes@)) by {
                        if self.has(bytes@) {
                            let i = choose|i: int| self.stored_at(bytes@, i);
                            assert(bytes_at(self.buffer(), bucket@[i]) != bytes@);
                        }
                    }
                }
                let string = self.store(bytes);
                bucket.push(string);
                set_bucket(&mut self.interned_strings, hash, bucket);
                proof {
                    self.string_added(*old(self), bytes@, string);
                }
                string
            },
        }
    }

    /// A pool to which a string was added is well formed, and holds that string and what it held.
    proof fn string_added(self, earlier: StringPool, bytes: Seq<u8>, string: VmString)
        requires
            earlier.wf(),
            !earlier.has(bytes),
            self.buffer() == earlier.buffer() + bytes,
            string.offset == earlier.buffer().len(),
            string.length == bytes.len(),
            self.buckets() == earlier.buckets().insert(
                hashed(bytes),
                earlier.bucket(hashed(bytes)).push(string),
            ),
        ensures
            self.wf(),
            self.keeps(earlier),
            lies_in(self.buffer(), string),
            bytes_at(self.buffer(), string) == bytes,
            self.strings() == earlier.strings().insert(bytes, string),
    {
        let own = hashed(bytes);
        assert(bytes_at(self.buffer(), string) == bytes);
        assert forall|other: VmString| #[trigger] lies_in(earlier.buffer(), other) implies lies_in(
            self.buffer(),
            other,
        ) && bytes_at(self.buffer(), other) == bytes_at(earlier.buffer(), other) by {
            assert(bytes_at(self.buffer(), other) == bytes_at(earlier.buffer(), other));
        }
        let last = earlier.bucket(own).len() as int;
        assert forall|hash: u64, i: int|
            0 <= i < self.bucket(hash).len() implies #[trigger] self.well_placed(hash, i) by {
            if hash != own || i < last {
                assert(self.bucket(hash)[i] == earlier.bucket(hash)[i]);
                assert(earlier.well_placed(hash, i));
                assert(lies_in(earlier.buffer(), earlier.bucket(hash)[i]));
            }
        }
        assert forall|hash: u64, i: int, j: int|
            0 <= i < j < self.bucket(hash).len() implies #[trigger] self.different(hash, i, j) by {
            assert(self.bucket(hash)[i] == earlier.bucket(hash)[i]);
            assert(earlier.well_placed(hash, i));
            assert(lies_in(earlier.buffer(), earlier.bucket(hash)[i]));
            if hash != own || j < last {
                assert(self.bucket(hash)[j] == earlier.bucket(hash)[j]);
                assert(earlier.well_placed(hash, j));
                assert(lies_in(earlier.buffer(), earlier.bucket(hash)[j]));
                assert(earlier.different(hash, i, j));
            } else {
                if bytes_at(earlier.buffer(), earlier.bucket(hash)[i]) == bytes {
                    assert(earlier.stored_at(bytes, i));
                }
            }
        }
        let left = self.strings();
        let right = earlier.strings().insert(bytes, string);
        assert forall|other: Seq<u8>| #[trigger] left.dom().contains(other) == right.dom().contains(
            other,
        ) by {
            self.stored_string_stays(earlier, bytes, string, other);
        }
        assert forall|other: Seq<u8>| #[trigger] left.dom().contains(other) implies left[other]
            == right[other] by {
            self.stored_string_stays(earlier, bytes, string, other);
        }
        assert(left.dom() =~= right.dom());
        assert(left =~= right);
    }

    proof fn stored_string_stays(
        self,
        earlier: StringPool,
        bytes: Seq<u8>,
        string: VmString,
        other: Seq<u8>,
    )
        requires
            earlier.wf(),
            self.wf(),
            self.keeps(earlier),
            bytes_at(self.buffer(), string) == bytes,
            !earlier.has(bytes),
            self.buckets() == earlier.buckets().insert(
                hashed(bytes),
                earlier.bucket(hashed(bytes)).push(string),
            ),
        ensures
            self.has(other) == (earlier.has(other) || other == bytes),
            earlier.has(other) ==> self.string_of(other) == earlier.string_of(other),
            other == bytes ==> self.string_of(other) == string,
    {
        let hash = hashed(other);
        let last = earlier.bucket(hashed(bytes)).len() as int;
        if other == bytes {
            assert(self.stored_at(bytes, last));
            let i = choose|i: int| self.stored_at(bytes, i);
            if i < last {
                assert(self.different(hash, i, last));
            }
        }
        if earlier.has(other) {
            let i = choose|i: int| earlier.stored_at(other, i);
            assert(earlier.well_placed(hash, i));
            assert(lies_in(earlier.buffer(), earlier.bucket(hash)[i]));
            assert(self.bucket(hash)[i] == earlier.bucket(hash)[i]);
            assert(self.stored_at(other, i));
            let j = choose|j: int| self.stored_at(other, j);
            if i < j {
                assert(self.different(hash, i, j));
            } else if j < i {
                assert(self.different(hash, j, i));
            }
        }
        if self.has(other) && other != bytes {
            let i = choose|i: int| self.stored_at(other, i);
            if hash == hashed(bytes) && i == last {
                assert(self.bucket(hash)[i] == string);
            } else {
                assert(self.bucket(hash)[i] == earlier.bucket(hash)[i]);
                assert(earlier.well_placed(hash, i));
                assert(lies_in(earlier.buffer(), earlier.bucket(hash)[i]));
                assert(earlier.stored_at(other, i));
            }
        }
    }

    /// The bytes of a string.
    pub fn resolve_bytes(&self, string: &VmString) -> (bytes: &[u8])
        requires
            lies_in(self.buffer(), *string),
        ensures
            bytes@ == bytes_at(self.buffer(), *string),
    {
        let total: usize = self.data_buffer.len();
        vstd::slice::slice_subrange(
            self.data_buffer.as_slice(),
            string.offset,
            string.offset + string.length,
        )
    }

    /// Whether a string has the same bytes as a string of this or another pool.
    pub fn same_text(&self, string: &VmString, other: &StringPool, other_string: &VmString) -> (same:
        bool)
        requires
            lies_in(self.buffer(), *string),
            lies_in(other.buffer(), *other_string),
        ensures
            same == (bytes_at(self.buffer(), *string) == bytes_at(other.buffer(), *other_string)),
    {
        self.matches_at(*string, other.resolve_bytes(other_string))
    }

    /// The text of a string whose bytes are the encoding of one.
    pub fn resolve_string(&self, string: &VmString) -> (text: &str)
        requires
            lies_in(self.buffer(), *string),
            valid_utf8(bytes_at(self.buffer(), *string)),
        ensures
            encode_utf8(text@) == bytes_at(self.buffer(), *string),
    {
        match text_of_bytes(self.resolve_bytes(string)) {
            Some(text) => text,
            None => "",
        }
    }
}

/// The strings of a pool that one worker has asked for before.
#[derive(Debug)]
pub struct ThreadLocalStringPool {
    local_strings: HashMap<u64, Vec<VmString>>,
}

impl ThreadLocalStringPool {
    pub closed spec fn local(self) -> Map<u64, Vec<VmString>> {
        self.local_strings@
    }

    /// Whether a remembered string is a string of the pool.
    pub open spec fn remembers(self, global: StringPool, hash: u64, i: int) -> bool {
        let string = self.local()[hash]@[i];
        let bytes = bytes_at(global.buffer(), string);
        lies_in(global.buffer(), string) && global.strings().contains_key(bytes)
            && global.strings()[bytes] == string
    }

    /// Whether all remembered strings are strings of the pool.
    pub open spec fn caches(self, global: StringPool) -> bool {
        forall|hash: u64, i: int|
            self.local().contains_key(hash) && 0 <= i < self.local()[hash]@.len()
                ==> #[trigger] self.remembers(global, hash, i)
    }

    pub fn new() -> (pool: ThreadLocalStringPool)
        ensures
            pool.local() == Map::<u64, Vec<VmString>>::empty(),
            forall|global: StringPool| #[trigger] pool.caches(global),
    {
        ThreadLocalStringPool { local_strings: HashMap::new() }
    }

    pub fn intern(&mut self, global: &mut StringPool, text: &str) -> (string: VmString)
        requires
            old(global).wf(),
            old(self).caches(*old(global)),
        ensures
            final(global).wf(),
            final(global).keeps(*old(global)),
            final(self).caches(*final(global)),
            lies_in(final(global).buffer(), string),
            bytes_at(final(global).buffer(), string) == encode_utf8(text@),
            if old(global).strings().contains_key(encode_utf8(text@)) {
                &&& string == old(global).strings()[encode_utf8(text@)]
                &&& *final(global) == *old(global)
            } else {
                final(global).strings() == old(global).strings().insert(encode_utf8(text@), string)
            },
    {
        self.intern_bytes(global, text.as_bytes())
    }

    /// The string of the pool with some bytes, without asking the pool where it was asked before.
    pub fn intern_bytes(&mut self, global: &mut StringPool, bytes: &[u8]) -> (string: VmString)
        requires
            old(global).wf(),
            old(self).caches(*old(global)),
        ensures
            final(global).wf(),
            final(global).keeps(*old(global)),
            final(self).caches(*final(global)),
            lies_in(final(global).buffer(), string),
            bytes_at(final(global).buffer(), string) == bytes@,
            if old(global).strings().contains_key(bytes@) {
                &&& string == old(global).strings()[bytes@]
                &&& *final(global) == *old(global)
            } else {
                final(global).strings() == old(global).strings().insert(bytes@, string)
            },
    {
        broadcast use vstd::std_specs::hash::group_hash_axioms;

        let hash: u64 = hash_bytes(bytes);
        let mut bucket: Vec<VmString> = Vec::new();
        if let Some(known) = self.local_strings.get(&hash) {
            assert forall|i: int| 0 <= i < known@.len() implies lies_in(
                global.buffer(),
                #[trigger] known@[i],
            ) by {
                assert(self.remembers(*global, hash, i));
            }
            if let Some(place) = global.find(known, bytes) {
                assert(self.remembers(*global, hash, place as int));
                return known[place];
            }
            bucket = copy_strings(known);
        }
        let ghost known = bucket@;
        let string = global.intern_bytes(bytes);
        bucket.push(string);
        self.local_strings.insert(hash, bucket);
        proof {
            assert forall|other: u64, i: int|
                self.local().contains_key(other) && 0 <= i
                    < self.local()[other]@.len() implies #[trigger] self.remembers(
                *global,
                other,
                i,
            ) by {
                if other != hash || i < known.len() {
                    assert(old(self).remembers(*old(global), other, i));
                    let remembered = old(self).local()[other]@[i];
                    assert(self.local()[other]@[i] == remembered);
                    assert(lies_in(old(global).buffer(), remembered));
                } else {
                    assert(self.local()[other]@[i] == string);
                }
            }
        }
        string
    }

    /// Forgets what was asked for.
    pub fn clear_local_cache(&mut self)
        ensures
            final(self).local() == Map::<u64, Vec<VmString>>::empty(),
            forall|global: StringPool| #[trigger] final(self).caches(global),
    {
        broadcast use vstd::std_specs::hash::group_hash_axioms;

        self.local_strings.clear();
    }
}

fn copy_strings(strings: &Vec<VmString>) -> (copy: Vec<VmString>)
    ensures
        copy@ == strings@,
{
    let mut copy: Vec<VmString> = Vec::new();
    while copy.len() < strings.len()
        invariant
            copy.len() <= strings.len(),
            copy@ == strings@.take(copy.len() as int),
        decreases strings.len() - copy.len(),
    {
        copy.push(strings[copy.len()]);
    }
    assert(copy@ == strings@);
    copy
}

/// In one pool two strings that are handed out for equal bytes are the same, and strings for
/// different bytes differ.
pub proof fn equal_strings_have_equal_bytes(pool: StringPool, first: Seq<u8>, second: Seq<u8>)
    requires
        pool.wf(),
        pool.strings().contains_key(first),
        pool.strings().contains_key(second),
    ensures
        (pool.strings()[first] == pool.strings()[second]) == (first == second),
        lies_in(pool.buffer(), pool.strings()[first]),
        bytes_at(pool.buffer(), pool.strings()[first]) == first,
{
    let i = choose|i: int| pool.stored_at(first, i);
    let j = choose|j: int| pool.stored_at(second, j);
    assert(pool.stored_at(first, i));
    assert(pool.stored_at(second, j));
    assert(pool.well_placed(hashed(first), i));
}

/// A text that is interned reads back as it was.
pub proof fn interned_text_reads_back(text: Seq<char>, read: Seq<char>)
    requires
        encode_utf8(read) == encode_utf8(text),
    ensures
        valid_utf8(encode_utf8(text)),
        read == text,
{
    vstd::utf8::encode_utf8_valid_utf8(text);
    vstd::utf8::encode_utf8_decode_utf8(text);
    vstd::utf8::encode_utf8_decode_utf8(read);
}

} // verus!
