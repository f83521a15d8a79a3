//! The balancing data archive: an ordered store of serialized records under
//! unique string keys, with an optional version tag, and its byte layout.
//!
//! Layout: a sequence of fields. Field 1 holds one entry, itself made of
//! field 1 (the key, UTF-8) and field 2 (the record bytes); field 2 holds the
//! version. Entries are written in archive order, then the version if any.

use crate::envelope::{gunzip_data, gzip_contents_of, gzip_data, gzip_stream_of};
use crate::wire::{
    field_bytes, field_span, lemma_field_span, read_span, write_field, copy_range, varint_bytes,
    DecodeError, TAG_FIELD_1, TAG_FIELD_2,
};
use vstd::prelude::*;
use vstd::slice::slice_subrange;
use vstd::string::StringSliceAdditionalSpecFns;
use vstd::utf8::{
    decode_utf8, encode_utf8, encode_utf8_decode_utf8, encode_utf8_valid_utf8, valid_utf8,
};

verus! {

/// What an archive holds: its entries in order, and its version tag.
pub struct ArchiveModel {
    pub entries: Seq<(Seq<char>, Seq<u8>)>,
    pub version: Option<Seq<char>>,
}

/// An archive with no entries and no version.
pub open spec fn empty_model() -> ArchiveModel {
    ArchiveModel { entries: Seq::empty(), version: None }
}

/// No key occurs twice.
pub open spec fn unique_keys(es: Seq<(Seq<char>, Seq<u8>)>) -> bool {
    forall|i: int, j: int| 0 <= i < j < es.len() ==> es[i].0 != es[j].0
}

/// Position of the first entry under key `k`, or -1.
pub open spec fn key_index(es: Seq<(Seq<char>, Seq<u8>)>, k: Seq<char>) -> int
    decreases es.len(),
{
    if es.len() == 0 {
        -1
    } else {
        let i = key_index(es.drop_last(), k);
        if i >= 0 {
            i
        } else if es.last().0 == k {
            es.len() - 1
        } else {
            -1
        }
    }
}

/// Stores `v` under `k`: in place when the key is present, else at the end.
pub open spec fn model_set(m: ArchiveModel, k: Seq<char>, v: Seq<u8>) -> ArchiveModel {
    let i = key_index(m.entries, k);
    ArchiveModel {
        entries: if i >= 0 {
            m.entries.update(i, (k, v))
        } else {
            m.entries.push((k, v))
        },
        version: m.version,
    }
}

/// Splits off an optional leading field with tag `tag`: its payload (empty
/// when absent) and the bytes after it.
pub open spec fn take_field(s: Seq<u8>, tag: u8) -> Result<(Seq<u8>, Seq<u8>), DecodeError> {
    if s.len() > 0 && s[0] == tag {
        match field_span(s.drop_first()) {
            Err(e) => Err(e),
            Ok((a, b)) => Ok((s.subrange(1 + a, 1 + b), s.subrange(1 + b, s.len() as int))),
        }
    } else {
        Ok((Seq::empty(), s))
    }
}

/// An entry: an optional key field, then an optional value field, and nothing else.
pub open spec fn parse_entry(b: Seq<u8>) -> Result<(Seq<char>, Seq<u8>), DecodeError> {
    match take_field(b, TAG_FIELD_1) {
        Err(e) => Err(e),
        Ok((kb, rest)) => if !valid_utf8(kb) {
            Err(DecodeError::Malformed)
        } else {
            match take_field(rest, TAG_FIELD_2) {
                Err(e) => Err(e),
                Ok((vb, tail)) => if tail.len() != 0 {
                    Err(DecodeError::Malformed)
                } else {
                    Ok((decode_utf8(kb), vb))
                },
            }
        },
    }
}

/// Reads the field at the start of `s` into `m`: how many bytes it takes
/// and the archive after it. A later version field replaces an earlier one.
pub open spec fn parse_step(s: Seq<u8>, m: ArchiveModel) -> Result<(int, ArchiveModel), DecodeError> {
    if s.len() == 0 || (s[0] != TAG_FIELD_1 && s[0] != TAG_FIELD_2) {
        Err(DecodeError::Malformed)
    } else {
        match field_span(s.drop_first()) {
            Err(e) => Err(e),
            Ok((a, b)) => {
                let payload = s.subrange(1 + a, 1 + b);
                if s[0] == TAG_FIELD_1 {
                    match parse_entry(payload) {
                        Err(e) => Err(e),
                        Ok((k, v)) => Ok((1 + b, model_set(m, k, v))),
                    }
                } else if valid_utf8(payload) {
                    Ok((1 + b, ArchiveModel { entries: m.entries, version: Some(decode_utf8(payload)) }))
                } else {
                    Err(DecodeError::Malformed)
                }
            },
        }
    }
}

/// Reads the fields of `s` into `m`, one after another.
pub open spec fn parse_items(s: Seq<u8>, m: ArchiveModel) -> Result<ArchiveModel, DecodeError>
    decreases s.len(),
{
    if s.len() == 0 {
        Ok(m)
    } else {
        match parse_step(s, m) {
            Err(e) => Err(e),
            Ok((n, m2)) => if 0 < n <= s.len() {
                parse_items(s.subrange(n, s.len() as int), m2)
            } else {
                Err(DecodeError::Malformed)
            },
        }
    }
}

/// The archive that the bytes `s` hold.
pub open spec fn parse_archive(s: Seq<u8>) -> Result<ArchiveModel, DecodeError> {
    parse_items(s, empty_model())
}

/// The bytes of one entry.
pub open spec fn entry_bytes(k: Seq<char>, v: Seq<u8>) -> Seq<u8> {
    field_bytes(TAG_FIELD_1, field_bytes(TAG_FIELD_1, encode_utf8(k)) + field_bytes(TAG_FIELD_2, v))
}

/// The bytes of the entries, in order.
pub open spec fn entries_bytes(es: Seq<(Seq<char>, Seq<u8>)>) -> Seq<u8>
    decreases es.len(),
{
    if es.len() == 0 {
        Seq::empty()
    } else {
        entry_bytes(es[0].0, es[0].1) + entries_bytes(es.drop_first())
    }
}

/// The bytes of the version tag, if there is one.
pub open spec fn version_bytes(v: Option<Seq<char>>) -> Seq<u8> {
    match v {
        Some(s) => field_bytes(TAG_FIELD_2, encode_utf8(s)),
        None => Seq::empty(),
    }
}

/// The bytes of an archive.
pub open spec fn encode_archive(m: ArchiveModel) -> Seq<u8> {
    entries_bytes(m.entries) + version_bytes(m.version)
}

/// Relies on `std::str::from_utf8`: it accepts exactly the valid UTF-8
/// sequences, and the string then holds the characters they encode.
#[verifier::external_body]
fn utf8_string(b: &[u8]) -> (r: Option<String>)
    ensures
        match r {
            Some(s) => valid_utf8(b@) && s@ == decode_utf8(b@),
            None => !valid_utf8(b@),
        },
{
    match std::str::from_utf8(b) {
        Ok(s) => Some(s.to_string()),
        Err(_) => None,
    }
}

proof fn lemma_key_index_found(es: Seq<(Seq<char>, Seq<u8>)>, k: Seq<char>, i: int)
    requires
        0 <= i < es.len(),
        es[i].0 == k,
        forall|j: int| 0 <= j < i ==> es[j].0 != k,
    ensures
        key_index(es, k) == i,
    decreases es.len(),
{
    if i < es.len() - 1 {
        lemma_key_index_found(es.drop_last(), k, i);
    } else {
        lemma_key_index_absent(es.drop_last(), k);
    }
}

proof fn lemma_key_index_absent(es: Seq<(Seq<char>, Seq<u8>)>, k: Seq<char>)
    requires
        forall|j: int| 0 <= j < es.len() ==> es[j].0 != k,
    ensures
        key_index(es, k) == -1,
    decreases es.len(),
{
    if es.len() > 0 {
        lemma_key_index_absent(es.drop_last(), k);
    }
}

/// Storing a record keeps the keys unique.
pub proof fn lemma_model_set_unique(m: ArchiveModel, k: Seq<char>, v: Seq<u8>)
    requires
        unique_keys(m.entries),
    ensures
        unique_keys(model_set(m, k, v).entries),
{
    let i = key_index(m.entries, k);
    if i < 0 {
        if exists|j: int| 0 <= j < m.entries.len() && m.entries[j].0 == k {
            let j = choose|j: int| 0 <= j < m.entries.len() && m.entries[j].0 == k;
            lemma_key_index_found(m.entries, k, j);
        }
    } else {
        lemma_key_index_bounds(m.entries, k);
    }
}

proof fn lemma_key_index_bounds(es: Seq<(Seq<char>, Seq<u8>)>, k: Seq<char>)
    ensures
        -1 <= key_index(es, k) < es.len(),
        key_index(es, k) >= 0 ==> es[key_index(es, k)].0 == k,
    decreases es.len(),
{
    if es.len() > 0 {
        lemma_key_index_bounds(es.drop_last(), k);
    }
}

proof fn lemma_entries_bytes_push(es: Seq<(Seq<char>, Seq<u8>)>, k: Seq<char>, v: Seq<u8>)
    ensures
        entries_bytes(es.push((k, v))) == entries_bytes(es) + entry_bytes(k, v),
    decreases es.len(),
{
    if es.len() == 0 {
        let one = es.push((k, v));
        assert(one.drop_first() =~= Seq::<(Seq<char>, Seq<u8>)>::empty());
        assert(one[0] == (k, v));
        assert(entries_bytes(one.drop_first()) == Seq::<u8>::empty());
        assert(entries_bytes(one) =~= entry_bytes(k, v));
    } else {
        assert(es.push((k, v)).drop_first() =~= es.drop_first().push((k, v)));
        lemma_entries_bytes_push(es.drop_first(), k, v);
        assert(entries_bytes(es.push((k, v))) =~= entries_bytes(es) + entry_bytes(k, v));
    }
}

/// An optional field read at `pos`, bounded by `end`: the bounds of its
/// payload (empty at `pos` when absent) and where reading goes on.
fn read_optional_field(buf: &[u8], pos: usize, end: usize, tag: u8) -> (r: Result<
    (usize, usize, usize),
    DecodeError,
>)
    requires
        pos <= end <= buf@.len(),
    ensures
        match take_field(buf@.subrange(pos as int, end as int), tag) {
            Ok((p, rest)) => r matches Ok((a, b, next)) && a <= b <= next <= end && buf@.subrange(
                a as int,
                b as int,
            ) == p && buf@.subrange(next as int, end as int) == rest,
            Err(e) => r == Err::<(usize, usize, usize), DecodeError>(e),
        },
{
    let ghost s = buf@.subrange(pos as int, end as int);
    if pos < end && buf[pos] == tag {
        assert(s.drop_first() =~= buf@.subrange(pos + 1, end as int));
        match read_span(buf, pos + 1, end) {
            Err(e) => Err(e),
            Ok((a, b)) => {
                assert(s.subrange(1 + (a - pos - 1), 1 + (b - pos - 1)) =~= buf@.subrange(
                    a as int,
                    b as int,
                ));
                assert(s.subrange(1 + (b - pos - 1), s.len() as int) =~= buf@.subrange(
                    b as int,
                    end as int,
                ));
                Ok((a, b, b))
            },
        }
    } else {
        assert(buf@.subrange(pos as int, pos as int) =~= Seq::<u8>::empty());
        Ok((pos, pos, pos))
    }
}

/// Reads the entry in `buf[start..end]`.
fn read_entry(buf: &[u8], start: usize, end: usize) -> (r: Result<(String, Vec<u8>), DecodeError>)
    requires
        start <= end <= buf@.len(),
    ensures
        match parse_entry(buf@.subrange(start as int, end as int)) {
            Ok((k, v)) => r matches Ok((ks, vs)) && ks@ == k && vs@ == v,
            Err(e) => r == Err::<(String, Vec<u8>), DecodeError>(e),
        },
{
    let (ka, kb, next) = match read_optional_field(buf, start, end, TAG_FIELD_1) {
        Ok(t) => t,
        Err(e) => return Err(e),
    };
    let key = match utf8_string(slice_subrange(buf, ka, kb)) {
        Some(k) => k,
        None => return Err(DecodeError::Malformed),
    };
    let (va, vb, tail) = match read_optional_field(buf, next, end, TAG_FIELD_2) {
        Ok(t) => t,
        Err(e) => return Err(e),
    };
    if tail != end {
        return Err(DecodeError::Malformed);
    }
    assert(buf@.subrange(tail as int, end as int).len() == 0);
    Ok((key, copy_range(buf, va, vb)))
}

/// The encoded archive fits the 64-bit lengths of the layout.
pub open spec fn encodable(m: ArchiveModel) -> bool {
    encode_archive(m).len() <= u64::MAX
}

proof fn lemma_take_written_field(tag: u8, payload: Seq<u8>, t: Seq<u8>)
    requires
        payload.len() <= u64::MAX,
    ensures
        take_field(field_bytes(tag, payload) + t, tag) == Ok::<(Seq<u8>, Seq<u8>), DecodeError>(
            (payload, t),
        ),
{
    let s = field_bytes(tag, payload) + t;
    let v = varint_bytes(payload.len());
    assert(s.drop_first() =~= v + payload + t);
    lemma_field_span(payload, t);
    assert(s.subrange((1 + v.len()) as int, (1 + v.len() + payload.len()) as int) =~= payload);
    assert(s.subrange((1 + v.len() + payload.len()) as int, s.len() as int) =~= t);
}

proof fn lemma_parse_written_entry(k: Seq<char>, v: Seq<u8>)
    requires
        entry_bytes(k, v).len() <= u64::MAX,
    ensures
        parse_entry(field_bytes(TAG_FIELD_1, encode_utf8(k)) + field_bytes(TAG_FIELD_2, v)) == Ok::<
            (Seq<char>, Seq<u8>),
            DecodeError,
        >((k, v)),
{
    let kf = field_bytes(TAG_FIELD_1, encode_utf8(k));
    let vf = field_bytes(TAG_FIELD_2, v);
    lemma_take_written_field(TAG_FIELD_1, encode_utf8(k), vf);
    assert(vf =~= vf + Seq::<u8>::empty());
    lemma_take_written_field(TAG_FIELD_2, v, Seq::<u8>::empty());
    encode_utf8_valid_utf8(k);
    encode_utf8_decode_utf8(k);
}

proof fn lemma_written_field_layout(tag: u8, payload: Seq<u8>, rest: Seq<u8>)
    requires
        payload.len() <= u64::MAX,
    ensures
        ({
            let s = field_bytes(tag, payload) + rest;
            let l = varint_bytes(payload.len()).len() as int;
            &&& s.len() > 0
            &&& s[0] == tag
            &&& field_span(s.drop_first()) == Ok::<(int, int), DecodeError>((l, l + payload.len()))
            &&& s.subrange(1 + l, 1 + l + payload.len()) == payload
            &&& s.subrange(1 + l + payload.len(), s.len() as int) == rest
            &&& 1 + l + payload.len() == field_bytes(tag, payload).len()
        }),
{
    let s = field_bytes(tag, payload) + rest;
    let v = varint_bytes(payload.len());
    assert(s.drop_first() =~= v + payload + rest);
    lemma_field_span(payload, rest);
    assert(s.subrange((1 + v.len()) as int, (1 + v.len() + payload.len()) as int) =~= payload);
    assert(s.subrange((1 + v.len() + payload.len()) as int, s.len() as int) =~= rest);
}

proof fn lemma_items_written_entry(k: Seq<char>, v: Seq<u8>, rest: Seq<u8>, m: ArchiveModel)
    requires
        entry_bytes(k, v).len() <= u64::MAX,
    ensures
        parse_items(entry_bytes(k, v) + rest, m) == parse_items(rest, model_set(m, k, v)),
{
    let body = field_bytes(TAG_FIELD_1, encode_utf8(k)) + field_bytes(TAG_FIELD_2, v);
    lemma_parse_written_entry(k, v);
    lemma_written_field_layout(TAG_FIELD_1, body, rest);
    let s = entry_bytes(k, v) + rest;
    let n = entry_bytes(k, v).len() as int;
    assert(parse_step(s, m) == Ok::<(int, ArchiveModel), DecodeError>((n, model_set(m, k, v))));
}

proof fn lemma_parse_written_entries(
    es: Seq<(Seq<char>, Seq<u8>)>,
    t: Seq<u8>,
    m: ArchiveModel,
)
    requires
        unique_keys(m.entries + es),
        entries_bytes(es).len() <= u64::MAX,
    ensures
        parse_items(entries_bytes(es) + t, m) == parse_items(
            t,
            ArchiveModel { entries: m.entries + es, version: m.version },
        ),
    decreases es.len(),
{
    if es.len() == 0 {
        assert(entries_bytes(es) + t =~= t);
        assert(m.entries + es =~= m.entries);
    } else {
        let (k, v) = es[0];
        let rest = entries_bytes(es.drop_first()) + t;
        assert(entries_bytes(es) + t =~= entry_bytes(k, v) + rest);
        lemma_items_written_entry(k, v, rest, m);
        assert forall|j: int| 0 <= j < m.entries.len() implies m.entries[j].0 != k by {
            assert((m.entries + es)[j] == m.entries[j]);
            assert((m.entries + es)[m.entries.len() as int] == es[0]);
        }
        lemma_key_index_absent(m.entries, k);
        let m2 = model_set(m, k, v);
        assert(m2.entries + es.drop_first() =~= m.entries + es);
        lemma_parse_written_entries(es.drop_first(), t, m2);
    }
}

/// Decoding the bytes of an archive gives back its entries, in order, and
/// its version.
pub proof fn lemma_archive_round_trip(m: ArchiveModel)
    requires
        unique_keys(m.entries),
        encodable(m),
    ensures
        parse_archive(encode_archive(m)) == Ok::<ArchiveModel, DecodeError>(m),
{
    let e = empty_model();
    assert(e.entries + m.entries =~= m.entries);
    lemma_parse_written_entries(m.entries, version_bytes(m.version), e);
    let m1 = ArchiveModel { entries: m.entries, version: None };
    assert(ArchiveModel { entries: e.entries + m.entries, version: e.version } == m1);
    if m.version is None {
        assert(m1 == m);
        assert(version_bytes(m.version) =~= Seq::<u8>::empty());
    }
    if let Some(v) = m.version {
        lemma_items_written_version(v, m1);
    }
}

proof fn lemma_items_written_version(v: Seq<char>, m: ArchiveModel)
    requires
        field_bytes(TAG_FIELD_2, encode_utf8(v)).len() <= u64::MAX,
    ensures
        parse_items(field_bytes(TAG_FIELD_2, encode_utf8(v)), m) == Ok::<ArchiveModel, DecodeError>(
            ArchiveModel { entries: m.entries, version: Some(v) },
        ),
{
    let payload = encode_utf8(v);
    let s = field_bytes(TAG_FIELD_2, payload);
    assert(s + Seq::<u8>::empty() =~= s);
    lemma_written_field_layout(TAG_FIELD_2, payload, Seq::<u8>::empty());
    encode_utf8_valid_utf8(v);
    encode_utf8_decode_utf8(v);
    let m2 = ArchiveModel { entries: m.entries, version: Some(v) };
    assert(parse_step(s, m) == Ok::<(int, ArchiveModel), DecodeError>((s.len() as int, m2)));
    assert(s.subrange(s.len() as int, s.len() as int) =~= Seq::<u8>::empty());
    assert(parse_items(Seq::<u8>::empty(), m2) == Ok::<ArchiveModel, DecodeError>(m2));
    assert(s.len() > 0);
}

/// The bytes of an archive start with a field tag, so they are never a
/// gzip stream, which starts with `1f 8b`.
pub proof fn lemma_archive_bytes_start_with_tag(m: ArchiveModel)
    ensures
        encode_archive(m).len() > 0 ==> (encode_archive(m)[0] == TAG_FIELD_1
            || encode_archive(m)[0] == TAG_FIELD_2),
{
    if m.entries.len() > 0 {
        let (k, v) = m.entries[0];
        let e = entry_bytes(k, v);
        assert(encode_archive(m) =~= e + (entries_bytes(m.entries.drop_first()) + version_bytes(
            m.version,
        )));
        assert(e[0] == TAG_FIELD_1);
    } else {
        assert(encode_archive(m) =~= version_bytes(m.version));
    }
}

/// An ordered store of serialized records under unique keys.
pub struct BalancingDataArchive {
    entries: Vec<(String, Vec<u8>)>,
    version: Option<String>,
}

impl View for BalancingDataArchive {
    type V = ArchiveModel;

    closed spec fn view(&self) -> ArchiveModel {
        ArchiveModel {
            entries: self.entries@.map_values(|e: (String, Vec<u8>)| (e.0@, e.1@)),
            version: match self.version {
                Some(v) => Some(v@),
                None => None,
            },
        }
    }
}

impl BalancingDataArchive {
    #[verifier::type_invariant]
    spec fn inv(&self) -> bool {
        unique_keys(self@.entries)
    }

    /// An archive with no records and no version.
    pub fn default() -> (r: Self)
        ensures
            r@ == empty_model(),
            unique_keys(r@.entries),
    {
        let r = BalancingDataArchive { entries: Vec::new(), version: None };
        assert(r@.entries =~= Seq::<(Seq<char>, Seq<u8>)>::empty());
        r
    }

    /// Reads the field at `pos` into the archive and returns where the next
    /// one starts.
    fn read_item(&mut self, buf: &[u8], pos: usize) -> (r: Result<usize, DecodeError>)
        requires
            pos < buf@.len(),
        ensures
            match parse_step(buf@.subrange(pos as int, buf@.len() as int), old(self)@) {
                Ok((n, m)) => r == Ok::<usize, DecodeError>((pos + n) as usize) && final(self)@ == m,
                Err(e) => r == Err::<usize, DecodeError>(e),
            },
            r matches Ok(next) ==> pos < next <= buf@.len(),
    {
        let ghost s = buf@.subrange(pos as int, buf@.len() as int);
        assert(s.drop_first() =~= buf@.subrange(pos + 1, buf@.len() as int));
        let tag = buf[pos];
        if tag != TAG_FIELD_1 && tag != TAG_FIELD_2 {
            return Err(DecodeError::Malformed);
        }
        let (a, b) = match read_span(buf, pos + 1, buf.len()) {
            Ok(t) => t,
            Err(e) => return Err(e),
        };
        assert(s.subrange(1 + (a - pos - 1), 1 + (b - pos - 1)) =~= buf@.subrange(a as int, b as int));
        if tag == TAG_FIELD_1 {
            let (key, value) = match read_entry(buf, a, b) {
                Ok(e) => e,
                Err(e) => return Err(e),
            };
            self.set_entry(key, value);
        } else {
            match utf8_string(slice_subrange(buf, a, b)) {
                Some(v) => {
                    proof {
                        use_type_invariant(&*self);
                    }
                    self.version = Some(v);
                },
                None => return Err(DecodeError::Malformed),
            }
        }
        Ok(b)
    }

    /// Reads an archive from its bytes.
    pub fn new(buf: &[u8]) -> (r: Result<Self, DecodeError>)
        ensures
            match parse_archive(buf@) {
                Ok(m) => r matches Ok(a) && a@ == m && unique_keys(a@.entries),
                Err(e) => r matches Err(x) && x == e,
            },
    {
        let mut archive = BalancingDataArchive::default();
        let mut pos: usize = 0;
        assert(buf@.subrange(0, buf@.len() as int) =~= buf@);
        while pos < buf.len()
            invariant
                pos <= buf@.len(),
                parse_archive(buf@) == parse_items(
                    buf@.subrange(pos as int, buf@.len() as int),
                    archive@,
                ),
            decreases buf@.len() - pos,
        {
            let ghost s = buf@.subrange(pos as int, buf@.len() as int);
            let next = match archive.read_item(buf, pos) {
                Ok(next) => next,
                Err(e) => return Err(e),
            };
            assert(s.subrange(next - pos, s.len() as int) =~= buf@.subrange(
                next as int,
                buf@.len() as int,
            ));
            pos = next;
        }
        assert(buf@.subrange(pos as int, buf@.len() as int) =~= Seq::<u8>::empty());
        proof {
            use_type_invariant(&archive);
        }
        Ok(archive)
    }

    /// Appends the bytes of the archive to `out`: the entries in order, then
    /// the version if there is one.
    pub fn write(&self, out: &mut Vec<u8>)
        ensures
            final(out)@ == old(out)@ + encode_archive(self@),
            unique_keys(self@.entries),
            parse_archive(encode_archive(self@)) == Ok::<ArchiveModel, DecodeError>(self@),
            encode_archive(self@).len() > 0 ==> (encode_archive(self@)[0] == TAG_FIELD_1
                || encode_archive(self@)[0] == TAG_FIELD_2),
    {
        proof {
            use_type_invariant(self);
            lemma_archive_bytes_start_with_tag(self@);
        }
        let ghost before = out@;
        let ghost es = self@.entries;
        let mut i: usize = 0;
        assert(es.take(0) =~= Seq::<(Seq<char>, Seq<u8>)>::empty());
        while i < self.entries.len()
            invariant
                0 <= i <= self.entries@.len(),
                es == self@.entries,
                es.len() == self.entries@.len(),
                out@ == before + entries_bytes(es.take(i as int)),
            decreases self.entries@.len() - i,
        {
            let (key, value) = &self.entries[i];
            let mut body: Vec<u8> = Vec::new();
            write_field(&mut body, TAG_FIELD_1, key.as_str().as_bytes());
            write_field(&mut body, TAG_FIELD_2, value.as_slice());
            write_field(out, TAG_FIELD_1, body.as_slice());
            proof {
                assert(es.take(i + 1) =~= es.take(i as int).push(es[i as int]));
                lemma_entries_bytes_push(es.take(i as int), es[i as int].0, es[i as int].1);
                assert(body@ =~= field_bytes(TAG_FIELD_1, encode_utf8(es[i as int].0)) + field_bytes(TAG_FIELD_2, es[i as int].1));
            }
            i += 1;
            assert(out@ =~= before + entries_bytes(es.take(i as int)));
        }
        assert(es.take(i as int) =~= es);
        match &self.version {
            Some(v) => write_field(out, TAG_FIELD_2, v.as_str().as_bytes()),
            None => {},
        }
        assert(out@ =~= before + encode_archive(self@));
        // The bytes now sit in a `Vec`, so their length fits the layout.
        let written: usize = out.len();
        proof {
            assert(written == out@.len());
            assert(encodable(self@));
            lemma_archive_round_trip(self@);
        }
    }

    /// Reads an archive from a gzip stream. A stream that the decoder
    /// refuses is a `CompressionFormat` error.
    pub fn new_gzipped(buf: &[u8]) -> (r: Result<Self, DecodeError>)
        ensures
            match gzip_contents_of(buf@) {
                Some(d) => match parse_archive(d) {
                    Ok(m) => r matches Ok(a) && a@ == m,
                    Err(e) => r matches Err(x) && x == e,
                },
                None => r matches Err(x) && x == DecodeError::CompressionFormat,
            },
            (buf@.len() < 10 || buf@[0] != 0x1f || buf@[1] != 0x8b) ==> (r matches Err(x) && x
                == DecodeError::CompressionFormat),
    {
        match gunzip_data(buf) {
            Ok(d) => BalancingDataArchive::new(d.as_slice()),
            Err(e) => Err(e),
        }
    }

    /// Reads an archive that may or may not be gzip-compressed: the bytes
    /// are read as a gzip stream, and only if the gzip decoder refuses them
    /// as an uncompressed archive. Errors of the archive inside a gzip
    /// stream are returned as they come.
    pub fn new_auto(buf: &[u8]) -> (r: Result<Self, DecodeError>)
        ensures
            match gzip_contents_of(buf@) {
                Some(d) => match parse_archive(d) {
                    Ok(m) => r matches Ok(a) && a@ == m,
                    Err(e) => r matches Err(x) && x == e,
                },
                None => match parse_archive(buf@) {
                    Ok(m) => r matches Ok(a) && a@ == m,
                    Err(e) => r matches Err(x) && x == e,
                },
            },
    {
        match gunzip_data(buf) {
            Ok(d) => BalancingDataArchive::new(d.as_slice()),
            Err(_) => BalancingDataArchive::new(buf),
        }
    }

    /// Appends the gzip stream of the archive's bytes to `out`; reading that
    /// stream back gives the archive.
    pub fn write_gzipped(&self, out: &mut Vec<u8>)
        ensures
            final(out)@ == old(out)@ + gzip_stream_of(encode_archive(self@)),
            gzip_contents_of(gzip_stream_of(encode_archive(self@))) == Some(encode_archive(self@)),
            parse_archive(encode_archive(self@)) == Ok::<ArchiveModel, DecodeError>(self@),
    {
        let mut plain: Vec<u8> = Vec::new();
        self.write(&mut plain);
        assert(plain@ =~= encode_archive(self@));
        let z = gzip_data(plain.as_slice());
        crate::wire::append_bytes(out, z.as_slice());
    }

    /// Keys in archive order.
    pub fn get_balaning_data_keys(&self) -> (r: Vec<String>)
        ensures
            unique_keys(self@.entries),
            r@.len() == self@.entries.len(),
            forall|i: int| 0 <= i < r@.len() ==> #[trigger] r@[i]@ == self@.entries[i].0,
    {
        proof {
            use_type_invariant(self);
        }
        let mut keys: Vec<String> = Vec::new();
        let mut i: usize = 0;
        while i < self.entries.len()
            invariant
                0 <= i <= self.entries@.len(),
                self@.entries.len() == self.entries@.len(),
                keys@.len() == i,
                forall|j: int| 0 <= j < i ==> #[trigger] keys@[j]@ == self@.entries[j].0,
            decreases self.entries@.len() - i,
        {
            keys.push(self.entries[i].0.clone());
            i += 1;
        }
        keys
    }

    /// Position of `key` in the entries, or `None`.
    fn find(&self, key: &String) -> (r: Option<usize>)
        ensures
            match r {
                Some(i) => key_index(self@.entries, key@) == i && i < self.entries@.len(),
                None => key_index(self@.entries, key@) == -1,
            },
    {
        let mut i: usize = 0;
        while i < self.entries.len()
            invariant
                0 <= i <= self.entries@.len(),
                self@.entries.len() == self.entries@.len(),
                forall|j: int| 0 <= j < i ==> self@.entries[j].0 != key@,
            decreases self.entries@.len() - i,
        {
            if self.entries[i].0 == *key {
                proof {
                    lemma_key_index_found(self@.entries, key@, i as int);
                }
                return Some(i);
            }
            i += 1;
        }
        proof {
            lemma_key_index_absent(self@.entries, key@);
        }
        None
    }

    /// The record stored under `key`, if any.
    pub fn get_data_key(&self, key: &str) -> (r: Option<&Vec<u8>>)
        ensures
            match r {
                Some(v) => key_index(self@.entries, key@) >= 0 && v@ == self@.entries[key_index(
                    self@.entries,
                    key@,
                )].1,
                None => key_index(self@.entries, key@) == -1,
            },
    {
        let k = key.to_owned();
        match self.find(&k) {
            Some(i) => Some(&self.entries[i].1),
            None => None,
        }
    }

    /// The record stored under `key`; a missing key is an error, never an
    /// empty record.
    pub fn get_data_key_required(&self, key: &str) -> (r: Result<&Vec<u8>, DecodeError>)
        ensures
            match r {
                Ok(v) => key_index(self@.entries, key@) >= 0 && v@ == self@.entries[key_index(
                    self@.entries,
                    key@,
                )].1,
                Err(e) => key_index(self@.entries, key@) == -1 && e == DecodeError::KeyNotFound,
            },
    {
        match self.get_data_key(key) {
            Some(v) => Ok(v),
            None => Err(DecodeError::KeyNotFound),
        }
    }

    fn set_entry(&mut self, key: String, data: Vec<u8>)
        ensures
            final(self)@ == model_set(old(self)@, key@, data@),
    {
        proof {
            use_type_invariant(&*self);
            lemma_model_set_unique(self@, key@, data@);
        }
        let ghost before = self@;
        let pos = self.find(&key);
        let mut entries: Vec<(String, Vec<u8>)> = Vec::new();
        std::mem::swap(&mut entries, &mut self.entries);
        match pos {
            Some(i) => {
                entries.set(i, (key, data));
            },
            None => {
                entries.push((key, data));
            },
        }
        assert(entries@.map_values(|e: (String, Vec<u8>)| (e.0@, e.1@)) =~= model_set(
            before,
            key@,
            data@,
        ).entries);
        std::mem::swap(&mut entries, &mut self.entries);
    }

    /// Stores `data` under `key`: a new key goes last, an existing key keeps
    /// its position.
    pub fn set_data_key_raw(&mut self, key: &str, data: Vec<u8>)
        ensures
            final(self)@ == model_set(old(self)@, key@, data@),
    {
        self.set_entry(key.to_owned(), data);
    }

    /// Sets the version tag.
    pub fn set_version(&mut self, version: &str)
        ensures
            final(self)@ == (ArchiveModel { entries: old(self)@.entries, version: Some(version@) }),
    {
        proof {
            use_type_invariant(&*self);
        }
        self.version = Some(version.to_owned());
    }

    /// The version tag, or the empty string when there is none.
    pub fn get_version(&self) -> (r: &str)
        ensures
            r@ == match self@.version {
                Some(v) => v,
                None => Seq::<char>::empty(),
            },
    {
        match &self.version {
            Some(v) => v.as_str(),
            None => {
                proof {
                    reveal_strlit("");
                }
                ""
            },
        }
    }
}

} // verus!
