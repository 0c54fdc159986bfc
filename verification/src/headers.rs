//! HTTP header names and values, and the header set of a request.
//!
//! Header names are compared without regard to ASCII case, so a set never
//! holds two entries whose names differ only in case.

use vstd::prelude::*;
use vstd::string::StringSliceAdditionalSpecFns;
use vstd::utf8::*;

verus! {

/// `b`, with an ASCII upper-case letter replaced by its lower-case form.
pub open spec fn lower_byte(b: u8) -> u8 {
    if 65 <= b <= 90 {
        (b + 32) as u8
    } else {
        b
    }
}

/// The form under which a header name is compared and stored in the view of
/// a header set: its UTF-8 bytes, ASCII letters lower-cased.
pub open spec fn header_key(name: Seq<char>) -> Seq<u8> {
    encode_utf8(name).map_values(|b: u8| lower_byte(b))
}

/// Whether the byte `b` may appear in an HTTP header value: a tab, or any
/// byte from 32 on except 127.
pub open spec fn header_byte_ok(b: u8) -> bool {
    b == 9 || (b >= 32 && b != 127)
}

/// Whether every byte of `bytes` may appear in an HTTP header value.
pub open spec fn header_bytes_ok(bytes: Seq<u8>) -> bool {
    forall|i: int| 0 <= i < bytes.len() ==> header_byte_ok(#[trigger] bytes[i])
}

/// Whether `value`, encoded as UTF-8, is a legal HTTP header value.
pub open spec fn header_value_ok(value: Seq<char>) -> bool {
    header_bytes_ok(encode_utf8(value))
}

/// The mapping from header key to value that a list of entries stands for.
/// Where two entries share a key, the later one counts.
pub open spec fn entries_map(entries: Seq<(String, String)>) -> Map<Seq<u8>, Seq<char>>
    decreases entries.len(),
{
    if entries.len() == 0 {
        Map::empty()
    } else {
        entries_map(entries.drop_last()).insert(
            header_key(entries.last().0@),
            entries.last().1@,
        )
    }
}

/// Whether no two entries of the list share a header key.
pub open spec fn distinct_keys(entries: Seq<(String, String)>) -> bool {
    forall|i: int, j: int|
        0 <= i < j < entries.len() ==> header_key(#[trigger] entries[i].0@) != header_key(
            #[trigger] entries[j].0@,
        )
}

/// Whether every value in the list is a legal header value.
pub open spec fn entry_values_ok(entries: Seq<(String, String)>) -> bool {
    forall|i: int| 0 <= i < entries.len() ==> header_value_ok(#[trigger] entries[i].1@)
}

/// Appending an entry inserts its key and value into the mapping.
pub proof fn lemma_entries_map_push(entries: Seq<(String, String)>, entry: (String, String))
    ensures
        entries_map(entries.push(entry)) == entries_map(entries).insert(
            header_key(entry.0@),
            entry.1@,
        ),
{
    assert(entries.push(entry).drop_last() =~= entries);
}

/// A key is in the mapping exactly when some entry carries it.
pub proof fn lemma_entries_map_dom(entries: Seq<(String, String)>, key: Seq<u8>)
    ensures
        entries_map(entries).contains_key(key) <==> exists|i: int|
            0 <= i < entries.len() && header_key(#[trigger] entries[i].0@) == key,
    decreases entries.len(),
{
    if entries.len() > 0 {
        let front = entries.drop_last();
        lemma_entries_map_dom(front, key);
        if entries_map(entries).contains_key(key) {
            if header_key(entries.last().0@) == key {
                assert(header_key(entries[entries.len() - 1].0@) == key);
            } else {
                let i = choose|i: int| 0 <= i < front.len() && header_key(#[trigger] front[i].0@) == key;
                assert(header_key(entries[i].0@) == key);
            }
        }
        if exists|i: int| 0 <= i < entries.len() && header_key(#[trigger] entries[i].0@) == key {
            let i = choose|i: int| 0 <= i < entries.len() && header_key(#[trigger] entries[i].0@) == key;
            if i < entries.len() - 1 {
                assert(header_key(front[i].0@) == key);
            }
        }
    }
}

/// Among entries with distinct keys, each entry's key maps to its value.
pub proof fn lemma_entries_map_at(entries: Seq<(String, String)>, i: int)
    requires
        distinct_keys(entries),
        0 <= i < entries.len(),
    ensures
        entries_map(entries).contains_key(header_key(entries[i].0@)),
        entries_map(entries)[header_key(entries[i].0@)] == entries[i].1@,
    decreases entries.len(),
{
    let front = entries.drop_last();
    if i < entries.len() - 1 {
        assert(distinct_keys(front)) by {
            assert forall|a: int, b: int| 0 <= a < b < front.len() implies header_key(
                #[trigger] front[a].0@,
            ) != header_key(#[trigger] front[b].0@) by {
                assert(front[a] == entries[a] && front[b] == entries[b]);
            }
        }
        lemma_entries_map_at(front, i);
        assert(front[i] == entries[i]);
        assert(header_key(entries[i].0@) != header_key(entries[entries.len() - 1].0@));
    }
}

/// Among entries with distinct keys, replacing an entry by one with the same
/// key inserts the new value under that key.
pub proof fn lemma_entries_map_update(
    entries: Seq<(String, String)>,
    i: int,
    entry: (String, String),
)
    requires
        distinct_keys(entries),
        0 <= i < entries.len(),
        header_key(entry.0@) == header_key(entries[i].0@),
    ensures
        distinct_keys(entries.update(i, entry)),
        entries_map(entries.update(i, entry)) == entries_map(entries).insert(
            header_key(entry.0@),
            entry.1@,
        ),
    decreases entries.len(),
{
    let updated = entries.update(i, entry);
    assert(distinct_keys(updated)) by {
        assert forall|a: int, b: int| 0 <= a < b < updated.len() implies header_key(
            #[trigger] updated[a].0@,
        ) != header_key(#[trigger] updated[b].0@) by {
            assert(header_key(updated[a].0@) == header_key(entries[a].0@));
            assert(header_key(updated[b].0@) == header_key(entries[b].0@));
        }
    }
    let front = entries.drop_last();
    let last = entries.last();
    if i == entries.len() - 1 {
        assert(updated.drop_last() =~= front);
        assert(entries_map(updated) =~= entries_map(entries).insert(
            header_key(entry.0@),
            entry.1@,
        ));
    } else {
        assert(distinct_keys(front)) by {
            assert forall|a: int, b: int| 0 <= a < b < front.len() implies header_key(
                #[trigger] front[a].0@,
            ) != header_key(#[trigger] front[b].0@) by {
                assert(front[a] == entries[a] && front[b] == entries[b]);
            }
        }
        assert(front[i] == entries[i]);
        lemma_entries_map_update(front, i, entry);
        assert(updated.drop_last() =~= front.update(i, entry));
        assert(updated.last() == last);
        assert(header_key(entries[i].0@) != header_key(entries[entries.len() - 1].0@));
        assert(entries_map(updated) =~= entries_map(entries).insert(
            header_key(entry.0@),
            entry.1@,
        ));
    }
}

/// With distinct keys, the values of the mapping are the values of the
/// entries: all of the one are legal exactly when all of the other are.
pub proof fn lemma_entry_values(entries: Seq<(String, String)>)
    requires
        distinct_keys(entries),
    ensures
        entry_values_ok(entries) <==> forall|key: Seq<u8>|
            entries_map(entries).contains_key(key) ==> header_value_ok(
                #[trigger] entries_map(entries)[key],
            ),
{
    let map = entries_map(entries);
    if entry_values_ok(entries) {
        assert forall|key: Seq<u8>| map.contains_key(key) implies header_value_ok(
            #[trigger] map[key],
        ) by {
            lemma_entries_map_dom(entries, key);
            let i = choose|i: int| 0 <= i < entries.len() && header_key(#[trigger] entries[i].0@) == key;
            lemma_entries_map_at(entries, i);
        }
    }
    if forall|key: Seq<u8>| map.contains_key(key) ==> header_value_ok(#[trigger] map[key]) {
        assert forall|i: int| 0 <= i < entries.len() implies header_value_ok(
            #[trigger] entries[i].1@,
        ) by {
            lemma_entries_map_at(entries, i);
            assert(header_value_ok(map[header_key(entries[i].0@)]));
        }
    }
}

/// The UTF-8 bytes of two texts one after the other are the bytes of the
/// first followed by the bytes of the second.
pub proof fn lemma_encode_joined(head: Seq<char>, tail: Seq<char>)
    ensures
        encode_utf8(head + tail) == encode_utf8(head) + encode_utf8(tail),
    decreases head.len(),
{
    if head.len() == 0 {
        assert(head + tail =~= tail);
        assert(encode_utf8(head) + encode_utf8(tail) =~= encode_utf8(tail));
    } else {
        lemma_encode_joined(head.drop_first(), tail);
        assert((head + tail).drop_first() =~= head.drop_first() + tail);
        assert(encode_utf8(head + tail) =~= encode_utf8(head) + encode_utf8(tail));
    }
}

/// Two texts one after the other are a legal header value exactly when
/// each of them is.
pub proof fn lemma_joined_value_ok(head: Seq<char>, tail: Seq<char>)
    ensures
        header_value_ok(head + tail) <==> header_value_ok(head) && header_value_ok(tail),
{
    lemma_encode_joined(head, tail);
    let h = encode_utf8(head);
    let t = encode_utf8(tail);
    let whole = h + t;
    if header_bytes_ok(whole) {
        assert forall|i: int| 0 <= i < h.len() implies header_byte_ok(#[trigger] h[i]) by {
            assert(whole[i] == h[i]);
        }
        assert forall|i: int| 0 <= i < t.len() implies header_byte_ok(#[trigger] t[i]) by {
            assert(whole[h.len() + i] == t[i]);
        }
    }
    if header_bytes_ok(h) && header_bytes_ok(t) {
        assert forall|i: int| 0 <= i < whole.len() implies header_byte_ok(#[trigger] whole[i]) by {
            if i < h.len() {
                assert(whole[i] == h[i]);
            } else {
                assert(whole[i] == t[i - h.len()]);
            }
        }
    }
}

/// The key of a name made of ASCII characters is as long as the name.
pub proof fn lemma_ascii_key_len(name: Seq<char>)
    requires
        is_ascii_chars(name),
    ensures
        header_key(name).len() == name.len(),
{
    is_ascii_chars_encode_utf8(name);
}

fn lowered(b: u8) -> (l: u8)
    ensures
        l == lower_byte(b),
{
    if 65 <= b && b <= 90 {
        b + 32
    } else {
        b
    }
}

/// Whether two header names are the same name, that is, equal up to ASCII
/// case.
pub fn same_header_name(a: &str, b: &str) -> (same: bool)
    ensures
        same == (header_key(a@) == header_key(b@)),
{
    let x = a.as_bytes();
    let y = b.as_bytes();
    if x.len() != y.len() {
        assert(header_key(a@).len() != header_key(b@).len());
        return false;
    }
    let mut i: usize = 0;
    while i < x.len()
        invariant
            x@ == encode_utf8(a@),
            y@ == encode_utf8(b@),
            x.len() == y.len(),
            i <= x.len(),
            forall|j: int| 0 <= j < i ==> header_key(a@)[j] == header_key(b@)[j],
        decreases x.len() - i,
    {
        if lowered(x[i]) != lowered(y[i]) {
            assert(header_key(a@)[i as int] != header_key(b@)[i as int]);
            return false;
        }
        i += 1;
    }
    assert(header_key(a@) =~= header_key(b@));
    true
}

/// `reqwest::header::HeaderValue::from_bytes` accepts exactly the byte
/// strings in which every byte is a tab, or is at least 32 and not 127.
/// This reports whether it accepts `bytes`.
#[verifier::external_body]
fn header_value_accepts(bytes: &[u8]) -> (ok: bool)
    ensures
        ok == header_bytes_ok(bytes@),
{
    reqwest::header::HeaderValue::from_bytes(bytes).is_ok()
}

/// Whether `value` is a legal HTTP header value.
pub fn is_header_value(value: &str) -> (ok: bool)
    ensures
        ok == header_value_ok(value@),
{
    header_value_accepts(value.as_bytes())
}

/// A set of HTTP headers: at most one value for each header name, names
/// compared without regard to ASCII case.
#[derive(Debug)]
pub struct Headers {
    entries: Vec<(String, String)>,
}

impl View for Headers {
    type V = Map<Seq<u8>, Seq<char>>;

    /// The value of each header, by [`header_key`] of its name.
    closed spec fn view(&self) -> Map<Seq<u8>, Seq<char>> {
        entries_map(self.entries@)
    }
}

impl DeepView for Headers {
    type V = Map<Seq<u8>, Seq<char>>;

    open spec fn deep_view(&self) -> Map<Seq<u8>, Seq<char>> {
        self.view()
    }
}

impl Headers {
    #[verifier::type_invariant]
    spec fn well_formed(self) -> bool {
        distinct_keys(self.entries@)
    }

    /// Whether every value in the set is a legal header value.
    pub open spec fn all_values_ok(self) -> bool {
        forall|key: Seq<u8>| self@.contains_key(key) ==> header_value_ok(#[trigger] self@[key])
    }

    /// The empty set.
    pub fn new() -> (headers: Headers)
        ensures
            headers@ == Map::<Seq<u8>, Seq<char>>::empty(),
    {
        Headers { entries: Vec::new() }
    }

    /// Sets the header `name` to `value`, replacing the value it had, if any.
    pub fn insert(&mut self, name: String, value: String)
        ensures
            final(self)@ == old(self)@.insert(header_key(name@), value@),
    {
        proof {
            use_type_invariant(&*self);
        }
        let mut taken = Headers { entries: Vec::new() };
        core::mem::swap(self, &mut taken);
        let mut entries = taken.entries;
        let mut i: usize = 0;
        while i < entries.len()
            invariant
                i <= entries.len(),
                forall|j: int| 0 <= j < i ==> header_key(#[trigger] entries[j].0@) != header_key(name@),
            ensures
                i <= entries.len(),
                i < entries.len() ==> header_key(entries[i as int].0@) == header_key(name@),
                forall|j: int| 0 <= j < i ==> header_key(#[trigger] entries[j].0@) != header_key(name@),
            decreases entries.len() - i,
        {
            if same_header_name(entries[i].0.as_str(), name.as_str()) {
                break ;
            }
            i += 1;
        }
        if i < entries.len() {
            proof {
                lemma_entries_map_update(entries@, i as int, (name, value));
            }
            entries.set(i, (name, value));
        } else {
            proof {
                lemma_entries_map_push(entries@, (name, value));
                let grown = entries@.push((name, value));
                assert forall|a: int, b: int| 0 <= a < b < grown.len() implies header_key(
                    #[trigger] grown[a].0@,
                ) != header_key(#[trigger] grown[b].0@) by {
                    assert(grown[a] == entries@[a]);
                    if b < entries@.len() {
                        assert(grown[b] == entries@[b]);
                    }
                }
            }
            entries.push((name, value));
        }
        *self = Headers { entries };
    }

    /// The value of the header `name`, if the set holds one.
    pub fn get(&self, name: &str) -> (value: Option<&String>)
        ensures
            match value {
                Some(v) => self@.contains_key(header_key(name@)) && self@[header_key(name@)] == v@,
                None => !self@.contains_key(header_key(name@)),
            },
    {
        proof {
            use_type_invariant(self);
        }
        let mut i: usize = 0;
        while i < self.entries.len()
            invariant
                i <= self.entries.len(),
                distinct_keys(self.entries@),
                forall|j: int| 0 <= j < i ==> header_key(#[trigger] self.entries[j].0@) != header_key(name@),
            decreases self.entries.len() - i,
        {
            if same_header_name(self.entries[i].0.as_str(), name) {
                proof {
                    lemma_entries_map_at(self.entries@, i as int);
                }
                return Some(&self.entries[i].1);
            }
            i += 1;
        }
        proof {
            lemma_entries_map_dom(self.entries@, header_key(name@));
        }
        None
    }

    /// The headers as a list of name and value, each name once.
    pub fn entries(&self) -> (list: &Vec<(String, String)>)
        ensures
            distinct_keys(list@),
            entries_map(list@) == self@,
    {
        proof {
            use_type_invariant(self);
        }
        &self.entries
    }

    /// A copy of the set.
    pub fn duplicate(&self) -> (copy: Headers)
        ensures
            copy@ == self@,
    {
        proof {
            use_type_invariant(self);
        }
        let mut entries: Vec<(String, String)> = Vec::new();
        let mut i: usize = 0;
        while i < self.entries.len()
            invariant
                i <= self.entries.len(),
                entries@ == self.entries@.subrange(0, i as int),
            decreases self.entries.len() - i,
        {
            let name = self.entries[i].0.clone();
            let value = self.entries[i].1.clone();
            entries.push((name, value));
            assert(entries@ =~= self.entries@.subrange(0, i + 1));
            i += 1;
        }
        assert(entries@ =~= self.entries@);
        Headers { entries }
    }

    /// Whether every value in the set is a legal header value.
    pub fn values_ok(&self) -> (ok: bool)
        ensures
            ok == self.all_values_ok(),
    {
        proof {
            use_type_invariant(self);
            lemma_entry_values(self.entries@);
            assert(self@ == entries_map(self.entries@));
            assert(entry_values_ok(self.entries@) <==> self.all_values_ok());
        }
        let mut i: usize = 0;
        while i < self.entries.len()
            invariant
                i <= self.entries.len(),
                entry_values_ok(self.entries@) <==> self.all_values_ok(),
                forall|j: int| 0 <= j < i ==> header_value_ok(#[trigger] self.entries[j].1@),
            decreases self.entries.len() - i,
        {
            if !is_header_value(self.entries[i].1.as_str()) {
                return false;
            }
            i += 1;
        }
        true
    }
}

} // verus!
