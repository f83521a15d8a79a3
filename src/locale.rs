//! The localized text table: a language id and a list of texts, each under
//! an optional name id.

use vstd::prelude::*;
use vstd::string::StringSliceAdditionalSpecFns;
use vstd::utf8::encode_utf8;

verus! {

/// One localized text.
pub struct LocaleBalancingDataBase {
    pub name_id: Option<String>,
    pub translated_text: Option<String>,
}

/// A language's table of texts.
pub struct SerializedLocalizedTexts {
    pub language_id: Option<String>,
    pub texts: Vec<LocaleBalancingDataBase>,
}

/// The characters of an optional string.
pub open spec fn opt_view(o: Option<String>) -> Option<Seq<char>> {
    match o {
        Some(s) => Some(s@),
        None => None,
    }
}

/// The name id of a text.
pub open spec fn name_of(t: LocaleBalancingDataBase) -> Option<Seq<char>> {
    opt_view(t.name_id)
}

/// Lexicographic order of byte sequences, a proper prefix first.
pub open spec fn bytes_lt(a: Seq<u8>, b: Seq<u8>) -> bool
    decreases a.len(),
{
    if a.len() == 0 {
        b.len() > 0
    } else if b.len() == 0 {
        false
    } else if a[0] != b[0] {
        a[0] < b[0]
    } else {
        bytes_lt(a.drop_first(), b.drop_first())
    }
}

/// The order of optional strings: no name first, then names by their UTF-8
/// bytes.
pub open spec fn name_gt(a: Option<Seq<char>>, b: Option<Seq<char>>) -> bool {
    match (a, b) {
        (Some(x), Some(y)) => bytes_lt(encode_utf8(y), encode_utf8(x)),
        (Some(_), None) => true,
        _ => false,
    }
}

/// Where a stable insertion puts `t` into `sorted`: before the first text
/// whose name orders after its own.
pub open spec fn insert_pos(sorted: Seq<LocaleBalancingDataBase>, t: LocaleBalancingDataBase) -> int
    decreases sorted.len(),
{
    if sorted.len() == 0 {
        0
    } else if name_gt(name_of(sorted[0]), name_of(t)) {
        0
    } else {
        1 + insert_pos(sorted.drop_first(), t)
    }
}

/// The texts stably sorted by name id.
pub open spec fn sort_by_name(s: Seq<LocaleBalancingDataBase>) -> Seq<LocaleBalancingDataBase>
    decreases s.len(),
{
    if s.len() == 0 {
        s
    } else {
        let r = sort_by_name(s.drop_last());
        r.insert(insert_pos(r, s.last()), s.last())
    }
}

/// Position of the first text named `key`, or -1.
pub open spec fn first_named(s: Seq<LocaleBalancingDataBase>, key: Seq<char>) -> int
    decreases s.len(),
{
    if s.len() == 0 {
        -1
    } else if name_of(s[0]) == Some(key) {
        0
    } else {
        let i = first_named(s.drop_first(), key);
        if i < 0 {
            -1
        } else {
            i + 1
        }
    }
}

proof fn lemma_first_named_step(s: Seq<LocaleBalancingDataBase>, key: Seq<char>, i: int)
    requires
        0 <= i < s.len(),
        forall|j: int| 0 <= j < i ==> name_of(s[j]) != Some(key),
    ensures
        first_named(s, key) == (if first_named(s.subrange(i, s.len() as int), key) < 0 {
            -1
        } else {
            i + first_named(s.subrange(i, s.len() as int), key)
        }),
    decreases i,
{
    if i > 0 {
        assert(s.drop_first().subrange(i - 1, s.drop_first().len() as int) =~= s.subrange(
            i,
            s.len() as int,
        ));
        lemma_first_named_step(s.drop_first(), key, i - 1);
    } else {
        assert(s.subrange(0, s.len() as int) =~= s);
    }
}

proof fn lemma_first_named_bounds(s: Seq<LocaleBalancingDataBase>, key: Seq<char>)
    ensures
        -1 <= first_named(s, key) < s.len(),
        first_named(s, key) >= 0 ==> name_of(s[first_named(s, key)]) == Some(key),
    decreases s.len(),
{
    if s.len() > 0 {
        lemma_first_named_bounds(s.drop_first(), key);
    }
}

/// Compares two byte slices lexicographically.
pub fn bytes_less(a: &[u8], b: &[u8]) -> (r: bool)
    ensures
        r == bytes_lt(a@, b@),
{
    let mut i: usize = 0;
    assert(a@.skip(0) =~= a@);
    assert(b@.skip(0) =~= b@);
    while i < a.len() && i < b.len()
        invariant
            0 <= i <= a@.len(),
            i <= b@.len(),
            bytes_lt(a@, b@) == bytes_lt(a@.skip(i as int), b@.skip(i as int)),
        decreases a@.len() - i,
    {
        if a[i] != b[i] {
            return a[i] < b[i];
        }
        assert(a@.skip(i as int).drop_first() =~= a@.skip(i + 1));
        assert(b@.skip(i as int).drop_first() =~= b@.skip(i + 1));
        i += 1;
    }
    i == a.len() && i < b.len()
}

fn name_greater(a: &Option<String>, b: &Option<String>) -> (r: bool)
    ensures
        r == name_gt(opt_view(*a), opt_view(*b)),
{
    match (a, b) {
        (Some(x), Some(y)) => bytes_less(y.as_str().as_bytes(), x.as_str().as_bytes()),
        (Some(_), None) => true,
        _ => false,
    }
}

fn find_insert_pos(sorted: &Vec<LocaleBalancingDataBase>, t: &LocaleBalancingDataBase) -> (r: usize)
    ensures
        r == insert_pos(sorted@, *t),
        r <= sorted@.len(),
{
    let mut j: usize = 0;
    assert(sorted@.skip(0) =~= sorted@);
    while j < sorted.len()
        invariant
            0 <= j <= sorted@.len(),
            insert_pos(sorted@, *t) == j + insert_pos(sorted@.skip(j as int), *t),
        decreases sorted@.len() - j,
    {
        assert(sorted@.skip(j as int).drop_first() =~= sorted@.skip(j + 1));
        if name_greater(&sorted[j].name_id, &t.name_id) {
            return j;
        }
        j += 1;
    }
    j
}

/// A language's texts, with the lookups and edits that tooling needs.
pub struct LocaleDataContainer {
    locale: SerializedLocalizedTexts,
}

impl LocaleDataContainer {
    /// The table held.
    pub closed spec fn table(&self) -> &SerializedLocalizedTexts {
        &self.locale
    }

    /// An empty table with no language id.
    pub fn default() -> (r: Self)
        ensures
            r.table().language_id is None,
            r.table().texts@.len() == 0,
    {
        LocaleDataContainer {
            locale: SerializedLocalizedTexts { language_id: None, texts: Vec::new() },
        }
    }

    /// A container that holds `locale`.
    pub fn from_locale(locale: SerializedLocalizedTexts) -> (r: Self)
        ensures
            *r.table() == locale,
    {
        LocaleDataContainer { locale }
    }

    /// The language id, if any.
    pub fn get_language_id(self) -> (r: Option<String>)
        ensures
            r == self.table().language_id,
    {
        self.locale.language_id
    }

    /// The name ids of the texts, in order.
    pub fn get_locale_text_ids(self) -> (r: Vec<Option<String>>)
        ensures
            r@.len() == self.table().texts@.len(),
            forall|i: int| 0 <= i < r@.len() ==> #[trigger] r@[i] == self.table().texts@[i].name_id,
    {
        let ghost texts = self.locale.texts@;
        let mut rest = self.locale.texts;
        let mut ids: Vec<Option<String>> = Vec::new();
        while rest.len() > 0
            invariant
                ids@.len() + rest@.len() == texts.len(),
                rest@ == texts.skip(ids@.len() as int),
                forall|i: int| 0 <= i < ids@.len() ==> #[trigger] ids@[i] == texts[i].name_id,
            decreases rest@.len(),
        {
            let t = rest.remove(0);
            assert(rest@ =~= texts.skip((ids@.len() + 1) as int));
            ids.push(t.name_id);
        }
        ids
    }

    /// The translation of the first text named `key`, if that text has one.
    pub fn get_translated_text(self, key: &str) -> (r: Option<String>)
        ensures
            r == (if first_named(self.table().texts@, key@) >= 0 {
                self.table().texts@[first_named(self.table().texts@, key@)].translated_text
            } else {
                None
            }),
    {
        match find_named(&self.locale.texts, key) {
            Some(i) => {
                let mut texts = self.locale.texts;
                texts.swap_remove(i).translated_text
            },
            None => None,
        }
    }

    /// Sets the translation of the first text named `key`; without such a
    /// text nothing changes.
    pub fn set_translated_text(&mut self, key: &str, text: &str)
        ensures
            final(self).table().language_id == old(self).table().language_id,
            ({
                let i = first_named(old(self).table().texts@, key@);
                let old_texts = old(self).table().texts@;
                if i >= 0 {
                    final(self).table().texts@.len() == old_texts.len() && (forall|j: int|
                        0 <= j < old_texts.len() && j != i ==> #[trigger] final(self).table().texts@[j]
                            == old_texts[j]) && final(self).table().texts@[i].name_id
                        == old_texts[i].name_id && opt_view(
                        final(self).table().texts@[i].translated_text,
                    ) == Some(text@)
                } else {
                    final(self).table().texts@ == old_texts
                }
            }),
    {
        match find_named(&self.locale.texts, key) {
            Some(i) => {
                let mut texts = Vec::new();
                std::mem::swap(&mut texts, &mut self.locale.texts);
                let old_entry = texts.remove(i);
                let entry = LocaleBalancingDataBase {
                    name_id: old_entry.name_id,
                    translated_text: Some(text.to_owned()),
                };
                texts.insert(i, entry);
                std::mem::swap(&mut texts, &mut self.locale.texts);
            },
            None => {},
        }
    }

    /// The table held.
    pub fn get_locale(&self) -> (r: &SerializedLocalizedTexts)
        ensures
            *r == *self.table(),
    {
        &self.locale
    }

    /// The table held, for editing in place.
    pub fn get_locale_mut(&mut self) -> (r: &mut SerializedLocalizedTexts)
        ensures
            *r == *old(self).table(),
            *final(self).table() == *final(r),
    {
        &mut self.locale
    }

    /// Replaces the table.
    pub fn set_locale(&mut self, data: SerializedLocalizedTexts)
        ensures
            *final(self).table() == data,
    {
        self.locale = data;
    }

    /// Sorts the texts by name id, stably: texts without a name id first,
    /// then by the UTF-8 bytes of the name.
    pub fn sort(&mut self)
        ensures
            final(self).table().language_id == old(self).table().language_id,
            final(self).table().texts@ == sort_by_name(old(self).table().texts@),
    {
        let mut input: Vec<LocaleBalancingDataBase> = Vec::new();
        std::mem::swap(&mut input, &mut self.locale.texts);
        let ghost orig = input@;
        let n = input.len();
        let mut out: Vec<LocaleBalancingDataBase> = Vec::new();
        let mut k: usize = 0;
        assert(orig.take(0) =~= Seq::<LocaleBalancingDataBase>::empty());
        while input.len() > 0
            invariant
                k + input@.len() == orig.len(),
                orig.len() == n,
                input@ == orig.skip(k as int),
                out@ == sort_by_name(orig.take(k as int)),
            decreases input@.len(),
        {
            let t = input.remove(0);
            assert(input@ =~= orig.skip(k + 1));
            assert(orig.take(k + 1).drop_last() =~= orig.take(k as int));
            let pos = find_insert_pos(&out, &t);
            out.insert(pos, t);
            k += 1;
        }
        assert(orig.take(k as int) =~= orig);
        self.locale.texts = out;
    }
}

/// Position of the first text named `key`.
fn find_named(texts: &Vec<LocaleBalancingDataBase>, key: &str) -> (r: Option<usize>)
    ensures
        match r {
            Some(i) => first_named(texts@, key@) == i && i < texts@.len(),
            None => first_named(texts@, key@) == -1,
        },
{
    let k = key.to_owned();
    let mut i: usize = 0;
    while i < texts.len()
        invariant
            0 <= i <= texts@.len(),
            k@ == key@,
            forall|j: int| 0 <= j < i ==> name_of(texts@[j]) != Some(key@),
        decreases texts@.len() - i,
    {
        let found = match &texts[i].name_id {
            Some(n) => *n == k,
            None => false,
        };
        if found {
            proof {
                lemma_first_named_step(texts@, key@, i as int);
            }
            return Some(i);
        }
        i += 1;
    }
    proof {
        lemma_first_named_absent(texts@, key@);
    }
    None
}

proof fn lemma_first_named_absent(s: Seq<LocaleBalancingDataBase>, key: Seq<char>)
    requires
        forall|j: int| 0 <= j < s.len() ==> name_of(s[j]) != Some(key),
    ensures
        first_named(s, key) == -1,
    decreases s.len(),
{
    if s.len() > 0 {
        lemma_first_named_absent(s.drop_first(), key);
    }
}

} // verus!
