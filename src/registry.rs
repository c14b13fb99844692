//! The identity registry: the set of API keys a server accepts, loaded once
//! from a comma-separated list and read-only afterwards.
use vstd::prelude::*;
use crate::protocol::{strip_credential, strip_padding, AuthResponse};

verus! {

/// What `str::trim` makes of a text.
pub uninterp spec fn trimmed(s: Seq<char>) -> Seq<char>;

/// What `String::from_utf8_lossy` makes of a byte string.
pub uninterp spec fn lossy_utf8(b: Seq<u8>) -> Seq<char>;

/// Relies on `str::trim`: the text without leading and trailing whitespace,
/// which depends on the characters alone.
#[verifier::external_body]
fn trim_text(s: &str) -> (r: String)
    ensures
        r@ == trimmed(s@),
{
    s.trim().to_string()
}

/// Relies on `String::from_utf8_lossy`: the bytes read as UTF-8, each invalid
/// sequence replaced; the result depends on the bytes alone.
#[verifier::external_body]
fn decode_lossy(b: &[u8]) -> (r: String)
    ensures
        r@ == lossy_utf8(b@),
{
    String::from_utf8_lossy(b).into_owned()
}

/// The pieces of `s` between commas, in order; a text without a comma is one
/// piece, and an empty text is one empty piece.
pub open spec fn split_commas(s: Seq<char>) -> Seq<Seq<char>>
    decreases s.len(),
{
    if s.len() == 0 {
        seq![Seq::<char>::empty()]
    } else {
        let rest = split_commas(s.drop_last());
        if s.last() == ',' {
            rest.push(Seq::<char>::empty())
        } else {
            rest.update(rest.len() - 1, rest.last().push(s.last()))
        }
    }
}

/// The keys listed in a comma-separated text, each trimmed.
pub open spec fn key_list(s: Seq<char>) -> Seq<Seq<char>> {
    split_commas(s).map_values(|p: Seq<char>| trimmed(p))
}

proof fn lemma_split_nonempty(s: Seq<char>)
    ensures
        split_commas(s).len() >= 1,
    decreases s.len(),
{
    if s.len() > 0 {
        lemma_split_nonempty(s.drop_last());
    }
}

/// The outcome of the authentication step for a credential frame.
pub open spec fn auth_outcome(keys: Set<Seq<char>>, frame: Seq<u8>) -> AuthResponse {
    if keys.contains(lossy_utf8(strip_padding(frame))) {
        AuthResponse::Success
    } else {
        AuthResponse::Failure
    }
}

/// The set of valid API keys.
pub struct IdentityRegistry {
    keys: Vec<String>,
}

impl View for IdentityRegistry {
    type V = Set<Seq<char>>;

    closed spec fn view(&self) -> Set<Seq<char>> {
        self.keys@.map_values(|k: String| k@).to_set()
    }
}

/// Loads the registry from a comma-separated list of keys, trimming each.
pub fn init_api_keys(text: &str) -> (r: IdentityRegistry)
    ensures
        r@ == key_list(text@).to_set(),
{
    let len = text.unicode_len();
    let mut keys: Vec<String> = Vec::new();
    let mut start: usize = 0;
    let mut i: usize = 0;
    while i < len
        invariant
            len == text@.len(),
            start <= i <= len,
            split_commas(text@.subrange(0, i as int)).len() == keys@.len() + 1,
            forall|j: int|
                0 <= j < keys@.len() ==> #[trigger] keys@[j]@ == trimmed(
                    split_commas(text@.subrange(0, i as int))[j],
                ),
            split_commas(text@.subrange(0, i as int)).last() == text@.subrange(
                start as int,
                i as int,
            ),
        decreases len - i,
    {
        let c = text.get_char(i);
        let ghost before = split_commas(text@.subrange(0, i as int));
        assert(text@.subrange(0, i + 1).drop_last() =~= text@.subrange(0, i as int));
        if c == ',' {
            let piece = text.substring_char(start, i);
            keys.push(trim_text(piece));
            start = i + 1;
            assert(text@.subrange(start as int, i + 1) =~= Seq::<char>::empty());
        } else {
            assert(text@.subrange(start as int, i + 1) =~= before.last().push(c));
        }
        i += 1;
    }
    let last = text.substring_char(start, len);
    keys.push(trim_text(last));
    let r = IdentityRegistry { keys };
    proof {
        assert(text@.subrange(0, len as int) =~= text@);
        let sp = split_commas(text@);
        assert(r.keys@.map_values(|k: String| k@) =~= key_list(text@));
    }
    r
}

impl IdentityRegistry {
    /// Whether `key` is one of the registered keys.
    pub fn contains(&self, key: &String) -> (r: bool)
        ensures
            r == self@.contains(key@),
    {
        let mut i: usize = 0;
        while i < self.keys.len()
            invariant
                i <= self.keys@.len(),
                forall|j: int| 0 <= j < i ==> #[trigger] self.keys@[j]@ != key@,
            decreases self.keys@.len() - i,
        {
            if self.keys[i] == *key {
                assert(self.keys@.map_values(|k: String| k@)[i as int] == key@);
                return true;
            }
            i += 1;
        }
        proof {
            let views = self.keys@.map_values(|k: String| k@);
            if views.to_set().contains(key@) {
                let j = choose|j: int| 0 <= j < views.len() && views[j] == key@;
                assert(self.keys@[j]@ == key@);
            }
        }
        false
    }

    /// Checks a received credential frame: its zero padding is removed, the
    /// rest is read as text, and the text is looked up.
    pub fn authenticate(&self, frame: &[u8]) -> (r: AuthResponse)
        ensures
            r == auth_outcome(self@, frame@),
    {
        let bytes = strip_credential(frame);
        let key = decode_lossy(bytes.as_slice());
        if self.contains(&key) {
            AuthResponse::Success
        } else {
            AuthResponse::Failure
        }
    }
}

} // verus!
