//! The cache that maps the hash of a piece of media to the address it was
//! uploaded to, so that the same content is uploaded once.

use crate::json::{doc_of, docs, lookup, parsed, printed, Json, JsonDoc};
use crate::keys::{keys_in_order, lemma_insert_keeps_order, order_after};
use indexmap::IndexMap;
use vstd::array::ArrayAdditionalExecFns;
use vstd::prelude::*;

verus! {

/// `indexmap::IndexMap`, a hash map that keeps its entries in the order
/// in which their keys were first inserted.
#[verifier::external_type_specification]
#[verifier::external_body]
#[verifier::reject_recursive_types(K)]
#[verifier::reject_recursive_types(V)]
#[verifier::reject_recursive_types(S)]
pub struct ExIndexMap<K, V, S>(IndexMap<K, V, S>);

/// The number of bytes of a content hash.
pub const HASH_LEN: usize = 64;

/// The hash of a piece of content.
pub type Hash = [u8; 64];

/// What is kept for one piece of uploaded media.
#[derive(Clone, Debug, PartialEq, Eq)]
pub struct MediaCache {
    pub url: String,
}

/// The map that the cache is held in.
pub type Entries = IndexMap<Hash, MediaCache>;

/// The address kept for each hash in `map`.
pub uninterp spec fn media_urls(map: Entries) -> Map<Seq<u8>, Seq<char>>;

/// The hashes of `map`, in the order in which the map hands them out: the
/// order in which they were first inserted.
pub uninterp spec fn media_order(map: Entries) -> Seq<Seq<u8>>;

/// `IndexMap::new` makes a map without entries.
#[verifier::external_body]
fn map_new() -> (fresh: Entries)
    ensures
        media_urls(fresh) == no_urls(),
        media_order(fresh) == Seq::<Seq<u8>>::empty(),
{
    IndexMap::new()
}

/// `IndexMap::len` counts the entries.
#[verifier::external_body]
fn map_len(map: &Entries) -> (n: usize)
    ensures
        n == media_order(*map).len(),
{
    map.len()
}

/// `IndexMap::get` hands out the value stored for the key, and `None`
/// where the map has no entry for it.
#[verifier::external_body]
fn map_get<'a>(map: &'a Entries, hash: &Hash) -> (found: Option<
    &'a MediaCache,
>)
    ensures
        match found {
            Some(cache) => media_urls(*map).contains_key(hash@) && media_urls(*map)[hash@]
                == cache.url@,
            None => !media_urls(*map).contains_key(hash@),
        },
{
    map.get(hash)
}

/// `IndexMap::get_index` hands out the entry at a position in the map's
/// order, and `None` for a position past the last entry.
#[verifier::external_body]
fn map_get_index<'a>(map: &'a Entries, index: usize) -> (found: Option<
    (&'a Hash, &'a MediaCache),
>)
    ensures
        match found {
            Some((hash, cache)) => index < media_order(*map).len() && hash@ == media_order(
                *map,
            )[index as int] && media_urls(*map).contains_key(hash@) && media_urls(*map)[hash@]
                == cache.url@,
            None => index >= media_order(*map).len(),
        },
{
    map.get_index(index)
}

/// `IndexMap::insert` stores the value for the key. A key that the map
/// already holds keeps its place in the order and gets the new value; a
/// new key goes last.
#[verifier::external_body]
fn map_insert(map: Entries, hash: Hash, cache: MediaCache) -> (after: Entries)
    ensures
        media_urls(after) == media_urls(map).insert(hash@, cache.url@),
        media_order(after) == order_after(media_urls(map), media_order(map), hash@),
{
    let mut map = map;
    map.insert(hash, cache);
    map
}

/// The cache without entries.
pub open spec fn no_urls() -> Map<Seq<u8>, Seq<char>> {
    Map::empty()
}

/// Whether `order` lists the keys of `urls`, each once, and every key has
/// the length of a hash.
pub open spec fn lists_keys(urls: Map<Seq<u8>, Seq<char>>, order: Seq<Seq<u8>>) -> bool {
    &&& keys_in_order(urls, order)
    &&& forall|i: int| 0 <= i < order.len() ==> (#[trigger] order[i]).len() == HASH_LEN
}

/// The addresses of uploaded media, by the hash of their content. Entries
/// are added and replaced, never removed.
pub struct MediaMap {
    map: Entries,
}

impl View for MediaMap {
    type V = Map<Seq<u8>, Seq<char>>;

    closed spec fn view(&self) -> Map<Seq<u8>, Seq<char>> {
        media_urls(self.map)
    }
}

impl Default for MediaMap {
    fn default() -> (map: MediaMap)
        ensures
            map@ == no_urls(),
            map.order() == Seq::<Seq<u8>>::empty(),
    {
        MediaMap::new()
    }
}

impl MediaMap {
    #[verifier::type_invariant]
    spec fn inv(self) -> bool {
        lists_keys(media_urls(self.map), media_order(self.map))
    }

    /// The hashes of the map in the order in which they were first added.
    pub closed spec fn order(&self) -> Seq<Seq<u8>> {
        media_order(self.map)
    }

    /// The map without entries.
    pub fn new() -> (map: MediaMap)
        ensures
            map@ == no_urls(),
            map.order() == Seq::<Seq<u8>>::empty(),
    {
        MediaMap { map: map_new() }
    }

    /// The number of entries. The order lists the hashes that the map has
    /// an address for, each once.
    pub fn len(&self) -> (n: usize)
        ensures
            n == self.order().len(),
            lists_keys(self@, self.order()),
    {
        proof {
            use_type_invariant(self);
        }
        map_len(&self.map)
    }

    /// The address kept for `hash`, if there is one.
    pub fn get(&self, hash: &Hash) -> (url: Option<&String>)
        ensures
            match url {
                Some(found) => self@.contains_key(hash@) && self@[hash@] == found@,
                None => !self@.contains_key(hash@),
            },
    {
        match map_get(&self.map, hash) {
            Some(cache) => Some(&cache.url),
            None => None,
        }
    }

    /// The entry at position `index` of the order, if there is one.
    pub fn get_index(&self, index: usize) -> (entry: Option<(&Hash, &String)>)
        ensures
            match entry {
                Some((hash, url)) => index < self.order().len() && hash@ == self.order()[index as int]
                    && self@.contains_key(hash@) && self@[hash@] == url@,
                None => index >= self.order().len(),
            },
    {
        match map_get_index(&self.map, index) {
            Some((hash, cache)) => Some((hash, &cache.url)),
            None => None,
        }
    }

    /// Keeps `url` for `hash`, in place of what was kept for it before.
    pub fn insert(&mut self, hash: Hash, url: String)
        ensures
            final(self)@ == old(self)@.insert(hash@, url@),
            final(self).order() == order_after(old(self)@, old(self).order(), hash@),
    {
        proof {
            use_type_invariant(&*self);
        }
        let ghost before = self.map;
        let mut held = map_new();
        std::mem::swap(&mut self.map, &mut held);
        let mut held = map_insert(held, hash, MediaCache { url });
        proof {
            lemma_insert_keeps_order(media_urls(before), media_order(before), hash@, url@);
        }
        std::mem::swap(&mut self.map, &mut held);
    }
}

/// The document of a hash: the list of its bytes.
pub open spec fn hash_doc(hash: Seq<u8>) -> JsonDoc {
    JsonDoc::Array(hash.map_values(|b: u8| JsonDoc::Unsigned(b as u64)))
}

/// The byte that a document holds, if it holds one.
pub open spec fn byte_of(doc: JsonDoc) -> Option<u8> {
    match doc {
        JsonDoc::Unsigned(n) => if n <= 255 {
            Some(n as u8)
        } else {
            None
        },
        _ => None,
    }
}

/// The hash that a document holds: a list of as many bytes as a hash has.
pub open spec fn decode_hash_spec(doc: JsonDoc) -> Option<Seq<u8>> {
    match doc {
        JsonDoc::Array(items) => if items.len() == HASH_LEN && forall|i: int|
            0 <= i < items.len() ==> (#[trigger] byte_of(items[i])) is Some {
            Some(Seq::new(items.len(), |i: int| byte_of(items[i])->0))
        } else {
            None
        },
        _ => None,
    }
}

/// The document of one entry of the cache.
pub open spec fn entry_doc(hash: Seq<u8>, url: Seq<char>) -> JsonDoc {
    JsonDoc::Object(seq![("hash"@, hash_doc(hash)), ("url"@, JsonDoc::Text(url))])
}

/// The entry that a document holds, if it holds one.
pub open spec fn decode_entry_spec(doc: JsonDoc) -> Option<(Seq<u8>, Seq<char>)> {
    match (doc.get("hash"@), doc.get("url"@)) {
        (Some(hash), Some(JsonDoc::Text(url))) => match decode_hash_spec(hash) {
            Some(hash) => Some((hash, url)),
            None => None,
        },
        _ => None,
    }
}

/// The document of the cache: its entries in the order of the map.
pub open spec fn encode_media_spec(urls: Map<Seq<u8>, Seq<char>>, order: Seq<Seq<u8>>) -> JsonDoc {
    JsonDoc::Array(order.map_values(|hash: Seq<u8>| entry_doc(hash, urls[hash])))
}

/// The cache that results from adding the entries of `items` one after the
/// other; `None` where one of them holds no entry.
pub open spec fn decode_entries_spec(items: Seq<JsonDoc>) -> Option<
    (Map<Seq<u8>, Seq<char>>, Seq<Seq<u8>>),
>
    decreases items.len(),
{
    if items.len() == 0 {
        Some((Map::empty(), Seq::empty()))
    } else {
        match (decode_entries_spec(items.drop_last()), decode_entry_spec(items.last())) {
            (Some((urls, order)), Some((hash, url))) => Some(
                (urls.insert(hash, url), order_after(urls, order, hash)),
            ),
            _ => None,
        }
    }
}

/// The cache that a document holds, if it holds one.
pub open spec fn decode_media_spec(doc: JsonDoc) -> Option<
    (Map<Seq<u8>, Seq<char>>, Seq<Seq<u8>>),
> {
    match doc {
        JsonDoc::Array(items) => decode_entries_spec(items),
        _ => None,
    }
}

/// A hash is read back from its document.
pub proof fn lemma_hash_round_trip(hash: Seq<u8>)
    requires
        hash.len() == HASH_LEN,
    ensures
        decode_hash_spec(hash_doc(hash)) == Some(hash),
{
    let items = hash.map_values(|b: u8| JsonDoc::Unsigned(b as u64));
    assert forall|i: int| 0 <= i < items.len() implies (#[trigger] byte_of(items[i])) == Some(
        hash[i],
    ) by {}
    assert(Seq::new(items.len(), |i: int| byte_of(items[i])->0) == hash);
}

/// An entry is read back from its document.
pub proof fn lemma_entry_round_trip(hash: Seq<u8>, url: Seq<char>)
    requires
        hash.len() == HASH_LEN,
    ensures
        decode_entry_spec(entry_doc(hash, url)) == Some((hash, url)),
{
    reveal_strlit("hash");
    reveal_strlit("url");
    assert("hash"@.len() == 4 && "url"@.len() == 3);
    let none = Seq::<(Seq<char>, JsonDoc)>::empty();
    let fields = seq![("hash"@, hash_doc(hash)), ("url"@, JsonDoc::Text(url))];
    assert(fields == none.push(("hash"@, hash_doc(hash))).push(("url"@, JsonDoc::Text(url))));
    assert(fields.drop_last() == none.push(("hash"@, hash_doc(hash))));
    assert(lookup(fields, "url"@) == Some(JsonDoc::Text(url)));
    assert(lookup(fields, "hash"@) == lookup(fields.drop_last(), "hash"@));
    assert(lookup(fields.drop_last(), "hash"@) == Some(hash_doc(hash)));
    lemma_hash_round_trip(hash);
}

/// Round trip of the document: the cache that is read from the document
/// of a cache is that cache, with the same addresses in the same order.
pub proof fn lemma_media_round_trip(urls: Map<Seq<u8>, Seq<char>>, order: Seq<Seq<u8>>)
    requires
        lists_keys(urls, order),
    ensures
        decode_media_spec(encode_media_spec(urls, order)) == Some((urls, order)),
    decreases order.len(),
{
    let items = order.map_values(|hash: Seq<u8>| entry_doc(hash, urls[hash]));
    if order.len() == 0 {
        assert(urls =~= Map::empty()) by {
            assert forall|hash: Seq<u8>| !urls.contains_key(hash) by {
                assert(!order.contains(hash));
            }
        }
        assert(order =~= Seq::empty());
    } else {
        let last = order.last();
        let fewer = urls.remove(last);
        let shorter = order.drop_last();
        assert(order.contains(last));
        assert forall|hash: Seq<u8>| fewer.contains_key(hash) <==> shorter.contains(
            hash,
        ) by {
            if shorter.contains(hash) {
                let i = choose|i: int| 0 <= i < shorter.len() && shorter[i] == hash;
                assert(order[i] == hash);
                assert(order.contains(hash));
                assert(order[i] != order[order.len() - 1]);
            }
            if fewer.contains_key(hash) {
                assert(urls.contains_key(hash));
                assert(order.contains(hash));
                let i = choose|i: int| 0 <= i < order.len() && order[i] == hash;
                assert(shorter[i] == hash);
            }
        }
        assert forall|i: int| 0 <= i < shorter.len() implies (#[trigger] shorter[i]).len()
            == HASH_LEN by {
            assert(shorter[i] == order[i]);
        }
        assert(lists_keys(fewer, shorter));
        lemma_media_round_trip(fewer, shorter);
        let head = shorter.map_values(|hash: Seq<u8>| entry_doc(hash, fewer[hash]));
        assert(items.drop_last() == head) by {
            assert forall|i: int| 0 <= i < head.len() implies items.drop_last()[i] == head[i] by {
                assert(shorter[i] == order[i]);
                assert(order[i] != last);
            }
        }
        assert(items.last() == entry_doc(last, urls[last]));
        lemma_entry_round_trip(last, urls[last]);
        assert(fewer.insert(last, urls[last]) =~= urls);
        assert(shorter.push(last) =~= order);
    }
}

/// Dedup cache hit: once an address is kept for a hash, the cache answers
/// with that address, keeps every other entry as it was, and loses none.
pub proof fn lemma_cache_hit(urls: Map<Seq<u8>, Seq<char>>, hash: Seq<u8>, url: Seq<char>)
    ensures
        urls.insert(hash, url).contains_key(hash),
        urls.insert(hash, url)[hash] == url,
        forall|other: Seq<u8>|
            other != hash && urls.contains_key(other) ==> urls.insert(hash, url).contains_key(
                other,
            ) && urls.insert(hash, url)[other] == urls[other],
        forall|other: Seq<u8>|
            other != hash && !urls.contains_key(other) ==> !urls.insert(hash, url).contains_key(
                other,
            ),
{
}

proof fn lemma_entries_none(items: Seq<JsonDoc>, n: int)
    requires
        0 <= n <= items.len(),
        decode_entries_spec(items.take(n)) is None,
    ensures
        decode_entries_spec(items) is None,
    decreases items.len() - n,
{
    if n == items.len() {
        assert(items.take(n) == items);
    } else {
        assert(items.take(n + 1).drop_last() == items.take(n));
        lemma_entries_none(items, n + 1);
    }
}

/// The document of `hash`.
pub fn encode_hash(hash: &Hash) -> (doc: Json)
    ensures
        doc@ == hash_doc(hash@),
{
    let mut items: Vec<Json> = Vec::new();
    let mut i: usize = 0;
    while i < 64
        invariant
            i <= 64,
            items.len() == i,
            forall|k: int| 0 <= k < i ==> items@[k] == Json::Unsigned(hash@[k] as u64),
        decreases 64 - i,
    {
        items.push(Json::Unsigned(hash[i] as u64));
        i += 1;
    }
    let doc = Json::Array(items);
    proof {
        reveal_with_fuel(doc_of, 2);
        assert(doc@->Array_0 == hash@.map_values(|b: u8| JsonDoc::Unsigned(b as u64)));
    }
    doc
}

/// The hash that `doc` holds; `None` where it holds none.
pub fn decode_hash(doc: &Json) -> (hash: Option<Hash>)
    ensures
        match hash {
            Some(found) => decode_hash_spec(doc@) == Some(found@),
            None => decode_hash_spec(doc@) is None,
        },
{
    let items = match doc.as_array() {
        Some(items) => items,
        None => {
            return None;
        },
    };
    if items.len() != 64 {
        return None;
    }
    let ghost all = docs(items@);
    let mut hash: Hash = [0u8; 64];
    let mut i: usize = 0;
    while i < 64
        invariant
            i <= 64,
            items.len() == 64,
            all == docs(items@),
            doc@ == JsonDoc::Array(all),
            forall|k: int| 0 <= k < i ==> (#[trigger] byte_of(all[k])) == Some(hash@[k]),
        decreases 64 - i,
    {
        let byte = match items[i].as_unsigned() {
            Some(n) => n,
            None => {
                assert(byte_of(all[i as int]) is None);
                return None;
            },
        };
        if byte > 255 {
            assert(byte_of(all[i as int]) is None);
            return None;
        }
        hash.set(i, byte as u8);
        i += 1;
    }
    assert(hash@ == Seq::new(all.len(), |k: int| byte_of(all[k])->0));
    Some(hash)
}

/// The document of the entry that keeps `url` for `hash`.
pub fn encode_entry(hash: &Hash, url: &String) -> (doc: Json)
    ensures
        doc@ == entry_doc(hash@, url@),
{
    let mut fields: Vec<(String, Json)> = Vec::new();
    fields.push(("hash".to_owned(), encode_hash(hash)));
    fields.push(("url".to_owned(), Json::Text(url.clone())));
    let doc = Json::Object(fields);
    proof {
        reveal_with_fuel(doc_of, 2);
        assert(doc@->Object_0 == entry_doc(hash@, url@)->Object_0);
    }
    doc
}

/// The entry that `doc` holds; `None` where it holds none.
pub fn decode_entry(doc: &Json) -> (entry: Option<(Hash, String)>)
    ensures
        match entry {
            Some((hash, url)) => decode_entry_spec(doc@) == Some((hash@, url@)),
            None => decode_entry_spec(doc@) is None,
        },
{
    let hash = match doc.get("hash") {
        Some(value) => value,
        None => {
            return None;
        },
    };
    let url = match doc.get("url") {
        Some(value) => match value.as_text() {
            Some(text) => text,
            None => {
                return None;
            },
        },
        None => {
            return None;
        },
    };
    match decode_hash(hash) {
        Some(hash) => Some((hash, url.clone())),
        None => None,
    }
}

/// The document of the cache `map`.
pub fn encode_media(map: &MediaMap) -> (doc: Json)
    ensures
        doc@ == encode_media_spec(map@, map.order()),
        lists_keys(map@, map.order()),
{
    let n = map.len();
    let mut items: Vec<Json> = Vec::new();
    let mut i: usize = 0;
    while i < n
        invariant
            i <= n,
            n == map.order().len(),
            items.len() == i,
            forall|k: int|
                0 <= k < i ==> items@[k]@ == entry_doc(map.order()[k], map@[map.order()[k]]),
        decreases n - i,
    {
        match map.get_index(i) {
            Some((hash, url)) => {
                items.push(encode_entry(hash, url));
            },
            None => {
                assert(false);
            },
        }
        i += 1;
    }
    let doc = Json::Array(items);
    assert(doc@->Array_0 == map.order().map_values(
        |hash: Seq<u8>| entry_doc(hash, map@[hash]),
    ));
    doc
}

/// The cache that `doc` holds; `None` where it holds none.
pub fn decode_media(doc: &Json) -> (map: Option<MediaMap>)
    ensures
        match map {
            Some(found) => decode_media_spec(doc@) == Some((found@, found.order())),
            None => decode_media_spec(doc@) is None,
        },
{
    let items = match doc.as_array() {
        Some(items) => items,
        None => {
            return None;
        },
    };
    let ghost all = docs(items@);
    let mut map = MediaMap::new();
    let mut i: usize = 0;
    assert(all.take(0) == Seq::<JsonDoc>::empty());
    while i < items.len()
        invariant
            i <= items.len(),
            all == docs(items@),
            doc@ == JsonDoc::Array(all),
            decode_entries_spec(all.take(i as int)) == Some((map@, map.order())),
        decreases items.len() - i,
    {
        proof {
            assert(all.take(i + 1).drop_last() == all.take(i as int));
            assert(all.take(i + 1).last() == all[i as int]);
        }
        match decode_entry(&items[i]) {
            Some((hash, url)) => {
                map.insert(hash, url);
            },
            None => {
                proof {
                    lemma_entries_none(all, i + 1);
                }
                return None;
            },
        }
        i += 1;
    }
    assert(all.take(items.len() as int) == all);
    Some(map)
}

/// The cache that the text `stored` describes; `None` where nothing is
/// stored, the text is no document or the document no cache.
pub fn read_media_map(stored: Option<&[u8]>) -> (map: Option<MediaMap>)
    ensures
        match map {
            Some(found) => stored is Some && parsed(stored->0@) is Some && decode_media_spec(
                parsed(stored->0@)->0,
            ) == Some((found@, found.order())),
            None => stored is None || parsed(stored->0@) is None || decode_media_spec(
                parsed(stored->0@)->0,
            ) is None,
        },
{
    match stored {
        Some(bytes) => match Json::parse(bytes) {
            Some(doc) => decode_media(&doc),
            None => None,
        },
        None => None,
    }
}

/// The text that is to be stored for the cache `map`.
pub fn write_media_map(map: &MediaMap) -> (bytes: Vec<u8>)
    ensures
        bytes@ == printed(encode_media_spec(map@, map.order())),
        lists_keys(map@, map.order()),
{
    encode_media(map).print()
}

/// The cache of uploaded media as one job uses it: loaded when the job
/// starts, asked and filled while it runs, and written back when it ends.
pub struct AccountDataDatabase {
    map: MediaMap,
}

impl View for AccountDataDatabase {
    type V = Map<Seq<u8>, Seq<char>>;

    closed spec fn view(&self) -> Map<Seq<u8>, Seq<char>> {
        self.map@
    }
}

/// The cache that the store holds, with the order of its entries: the
/// one that the stored text describes, and the empty cache where nothing
/// is stored or the text is no cache.
pub open spec fn load_spec(stored: Option<Seq<u8>>) -> (Map<Seq<u8>, Seq<char>>, Seq<Seq<u8>>) {
    match stored {
        Some(bytes) => match parsed(bytes) {
            Some(doc) => match decode_media_spec(doc) {
                Some(cache) => cache,
                None => (Map::empty(), Seq::empty()),
            },
            None => (Map::empty(), Seq::empty()),
        },
        None => (Map::empty(), Seq::empty()),
    }
}

impl AccountDataDatabase {
    /// The hashes of the cache in the order in which they were first added.
    pub closed spec fn order(&self) -> Seq<Seq<u8>> {
        self.map.order()
    }

    /// The cache that the store holds, where `stored` is what the store
    /// gave for the cache's key.
    pub fn load(stored: Option<&[u8]>) -> (db: AccountDataDatabase)
        ensures
            (db@, db.order()) == load_spec(
                match stored {
                    Some(bytes) => Some(bytes@),
                    None => None,
                },
            ),
    {
        match read_media_map(stored) {
            Some(map) => AccountDataDatabase { map },
            None => AccountDataDatabase { map: MediaMap::new() },
        }
    }

    /// The text that is to be stored for the cache.
    pub fn store(&self) -> (bytes: Vec<u8>)
        ensures
            bytes@ == printed(encode_media_spec(self@, self.order())),
            lists_keys(self@, self.order()),
    {
        write_media_map(&self.map)
    }

    /// The address that was kept for content with this hash, if any: where
    /// there is one, the content need not be uploaded again.
    pub fn get(&self, hash: &Hash) -> (url: Option<String>)
        ensures
            match url {
                Some(found) => self@.contains_key(hash@) && self@[hash@] == found@,
                None => !self@.contains_key(hash@),
            },
    {
        match self.map.get(hash) {
            Some(url) => Some(url.clone()),
            None => None,
        }
    }

    /// Keeps `url` as the address of content with this hash. No other
    /// entry changes, and none is removed.
    pub fn add(&mut self, hash: Hash, url: String)
        ensures
            final(self)@ == old(self)@.insert(hash@, url@),
            final(self).order() == order_after(old(self)@, old(self).order(), hash@),
    {
        self.map.insert(hash, url);
    }
}

/// Round trip through the store: where the text of the cache's document
/// is read back as that document, what is loaded from the stored text of
/// a cache is that cache.
pub proof fn lemma_media_store_round_trip(urls: Map<Seq<u8>, Seq<char>>, order: Seq<Seq<u8>>)
    requires
        lists_keys(urls, order),
    ensures
        parsed(printed(encode_media_spec(urls, order))) == Some(encode_media_spec(urls, order))
            ==> load_spec(Some(printed(encode_media_spec(urls, order)))) == (urls, order),
{
    lemma_media_round_trip(urls, order);
}

} // verus!
