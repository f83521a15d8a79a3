//! Player preferences: the document of named string and integer entries,
//! and the serialized player data kept, base64- and percent-encoded, in its
//! string entry named `player`.

use vstd::prelude::*;
use vstd::string::StringSliceAdditionalSpecFns;
use vstd::utf8::encode_utf8;

verus! {

/// A preferences document.
pub struct PlayerPrefsXml {
    pub strings: Vec<StringPrefXml>,
    pub ints: Vec<IntPrefXml>,
}

/// A named string entry.
pub struct StringPrefXml {
    pub name: String,
    pub value: String,
}

/// A named integer entry, its value kept as written.
pub struct IntPrefXml {
    pub name: String,
    pub value: String,
}

/// Why preferences hold no player data.
#[derive(Clone, Copy, Debug, PartialEq, Eq, Structural)]
pub enum PrefsError {
    /// No string entry is named `player`.
    NoPlayerKey,
    /// The entry's value is not valid base64 once percent-decoded.
    InvalidBase64,
}

/// The name of the entry that holds the player data.
pub open spec fn player_key() -> Seq<char> {
    "player"@
}

/// The base64 text (standard alphabet, padded) that base64 writes for `b`.
pub uninterp spec fn base64_text_of(b: Seq<u8>) -> Seq<char>;

/// What base64 reads from the text bytes `t` (standard alphabet, padded), or
/// `None` when it refuses them.
pub uninterp spec fn base64_bytes_of(t: Seq<u8>) -> Option<Seq<u8>>;

/// The text that url_escape decodes from `s`: percent escapes become bytes,
/// read as UTF-8 with invalid sequences replaced.
pub uninterp spec fn percent_decoded(s: Seq<char>) -> Seq<char>;

/// Uppercase hexadecimal digit of `d < 16`.
pub open spec fn hex_digit(d: u8) -> char {
    if d < 10 {
        (d + 48) as char
    } else {
        (d + 55) as char
    }
}

/// An ASCII letter or digit.
pub open spec fn is_ascii_alphanumeric(b: u8) -> bool {
    (48 <= b <= 57) || (65 <= b <= 90) || (97 <= b <= 122)
}

/// Each byte that is not an ASCII letter or digit written as `%XX`.
pub open spec fn percent_encoded_bytes(b: Seq<u8>) -> Seq<char>
    decreases b.len(),
{
    if b.len() == 0 {
        Seq::empty()
    } else {
        let head = if is_ascii_alphanumeric(b[0]) {
            seq![b[0] as char]
        } else {
            seq!['%', hex_digit(b[0] / 16), hex_digit(b[0] % 16)]
        };
        head + percent_encoded_bytes(b.drop_first())
    }
}

/// Relies on base64's `BASE64_STANDARD.encode`: the text depends on the
/// bytes alone.
#[verifier::external_body]
fn base64_encode(b: &[u8]) -> (r: String)
    ensures
        r@ == base64_text_of(b@),
{
    base64::Engine::encode(&base64::prelude::BASE64_STANDARD, b)
}

/// Relies on base64's `BASE64_STANDARD.decode`: it accepts or refuses the
/// text, and reads its bytes, from the text alone.
#[verifier::external_body]
fn base64_decode(t: &[u8]) -> (r: Option<Vec<u8>>)
    ensures
        match base64_bytes_of(t@) {
            Some(d) => r matches Some(v) && v@ == d,
            None => r is None,
        },
{
    base64::Engine::decode(&base64::prelude::BASE64_STANDARD, t).ok()
}

/// Relies on url_escape's `decode`: the text depends on its input alone.
#[verifier::external_body]
fn url_decode(s: &str) -> (r: String)
    ensures
        r@ == percent_decoded(s@),
{
    url_escape::decode(s).into_owned()
}

/// Relies on url_escape's `encode` with `NON_ALPHANUMERIC`, which escapes
/// every UTF-8 byte that is not an ASCII letter or digit as `%` and two
/// uppercase hexadecimal digits.
#[verifier::external_body]
fn url_encode(s: &str) -> (r: String)
    ensures
        r@ == percent_encoded_bytes(encode_utf8(s@)),
{
    url_escape::encode(s, url_escape::NON_ALPHANUMERIC).into_owned()
}

/// Position of the first string entry named `player`, or -1.
pub open spec fn player_index(s: Seq<StringPrefXml>) -> int
    decreases s.len(),
{
    if s.len() == 0 {
        -1
    } else if s[0].name@ == player_key() {
        0
    } else {
        let i = player_index(s.drop_first());
        if i < 0 {
            -1
        } else {
            i + 1
        }
    }
}

proof fn lemma_player_index_found(s: Seq<StringPrefXml>, i: int)
    requires
        0 <= i < s.len(),
        s[i].name@ == player_key(),
        forall|j: int| 0 <= j < i ==> s[j].name@ != player_key(),
    ensures
        player_index(s) == i,
    decreases i,
{
    if i > 0 {
        lemma_player_index_found(s.drop_first(), i - 1);
    }
}

proof fn lemma_player_index_absent(s: Seq<StringPrefXml>)
    requires
        forall|j: int| 0 <= j < s.len() ==> s[j].name@ != player_key(),
    ensures
        player_index(s) == -1,
    decreases s.len(),
{
    if s.len() > 0 {
        lemma_player_index_absent(s.drop_first());
    }
}

/// Position of the first string entry named `player`.
fn find_player(strings: &Vec<StringPrefXml>) -> (r: Option<usize>)
    ensures
        match r {
            Some(i) => player_index(strings@) == i && i < strings@.len(),
            None => player_index(strings@) == -1,
        },
{
    let key = "player".to_owned();
    let mut i: usize = 0;
    while i < strings.len()
        invariant
            0 <= i <= strings@.len(),
            key@ == player_key(),
            forall|j: int| 0 <= j < i ==> strings@[j].name@ != player_key(),
        decreases strings@.len() - i,
    {
        if strings[i].name == key {
            proof {
                lemma_player_index_found(strings@, i as int);
            }
            return Some(i);
        }
        i += 1;
    }
    proof {
        lemma_player_index_absent(strings@);
    }
    None
}

/// The serialized player data of a preferences document.
pub struct PlayerPrefsData {
    data: Vec<u8>,
}

impl PlayerPrefsData {
    /// The serialized player data.
    pub closed spec fn bytes(&self) -> Seq<u8> {
        self.data@
    }

    /// No player data.
    pub fn default() -> (r: Self)
        ensures
            r.bytes().len() == 0,
    {
        PlayerPrefsData { data: Vec::new() }
    }

    /// Holds a copy of the serialized player data `buf`.
    pub fn new(buf: &[u8]) -> (r: Self)
        ensures
            r.bytes() == buf@,
    {
        PlayerPrefsData { data: vstd::slice::slice_to_vec(buf) }
    }

    /// The serialized player data.
    pub fn get_data(&self) -> (r: &Vec<u8>)
        ensures
            r@ == self.bytes(),
    {
        &self.data
    }

    /// The serialized player data, for editing in place.
    pub fn get_data_mut(&mut self) -> (r: &mut Vec<u8>)
        ensures
            r@ == old(self).bytes(),
            final(self).bytes() == final(r)@,
    {
        &mut self.data
    }

    /// Replaces the serialized player data.
    pub fn set_data(&mut self, data: Vec<u8>)
        ensures
            final(self).bytes() == data@,
    {
        self.data = data;
    }

    /// Reads the player data out of a preferences document: the value of
    /// the first string entry named `player`, percent-decoded, then
    /// base64-decoded.
    pub fn from_prefs(xml: &PlayerPrefsXml) -> (r: Result<Self, PrefsError>)
        ensures
            player_index(xml.strings@) == -1 ==> r == Err::<Self, PrefsError>(
                PrefsError::NoPlayerKey,
            ),
            player_index(xml.strings@) >= 0 ==> match base64_bytes_of(
                encode_utf8(percent_decoded(xml.strings@[player_index(xml.strings@)].value@)),
            ) {
                Some(d) => r matches Ok(p) && p.bytes() == d,
                None => r == Err::<Self, PrefsError>(PrefsError::InvalidBase64),
            },
    {
        let i = match find_player(&xml.strings) {
            Some(i) => i,
            None => return Err(PrefsError::NoPlayerKey),
        };
        let text = url_decode(xml.strings[i].value.as_str());
        match base64_decode(text.as_str().as_bytes()) {
            Some(data) => Ok(PlayerPrefsData { data }),
            None => Err(PrefsError::InvalidBase64),
        }
    }

    /// Writes the player data into a preferences document: the first string
    /// entry named `player` gets the base64 text of the data,
    /// percent-encoded. Nothing changes when there is no such entry.
    pub fn to_prefs(&self, xml: &mut PlayerPrefsXml) -> (r: Result<(), PrefsError>)
        ensures
            final(xml).ints@ == old(xml).ints@,
            player_index(old(xml).strings@) == -1 ==> r == Err::<(), PrefsError>(
                PrefsError::NoPlayerKey,
            ) && final(xml).strings@ == old(xml).strings@,
            player_index(old(xml).strings@) >= 0 ==> ({
                let i = player_index(old(xml).strings@);
                &&& r is Ok
                &&& final(xml).strings@.len() == old(xml).strings@.len()
                &&& forall|j: int|
                    0 <= j < old(xml).strings@.len() && j != i ==> #[trigger] final(xml).strings@[j]
                        == old(xml).strings@[j]
                &&& final(xml).strings@[i].name == old(xml).strings@[i].name
                &&& final(xml).strings@[i].value@ == percent_encoded_bytes(
                    encode_utf8(base64_text_of(self.bytes())),
                )
            }),
    {
        let i = match find_player(&xml.strings) {
            Some(i) => i,
            None => return Err(PrefsError::NoPlayerKey),
        };
        let encoded = url_encode(base64_encode(self.data.as_slice()).as_str());
        let mut strings: Vec<StringPrefXml> = Vec::new();
        std::mem::swap(&mut strings, &mut xml.strings);
        let old_entry = strings.remove(i);
        strings.insert(i, StringPrefXml { name: old_entry.name, value: encoded });
        std::mem::swap(&mut strings, &mut xml.strings);
        Ok(())
    }
}

} // verus!
