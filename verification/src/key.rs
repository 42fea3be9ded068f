//! Map keys. The host's key grammar allows only ASCII letters, digits and
//! the underscore; a key is checked once, when it is constructed, and
//! carries its validity from then on.

use vstd::prelude::*;

verus! {

/// Whether `c` may appear in a map key: ASCII alphanumeric or underscore.
pub open spec fn is_key_char(c: char) -> bool {
    ('a' <= c && c <= 'z') || ('A' <= c && c <= 'Z') || ('0' <= c && c <= '9') || c == '_'
}

/// Whether every character of `s` may appear in a map key.
pub open spec fn is_valid_key(s: Seq<char>) -> bool {
    forall|i: int| 0 <= i < s.len() ==> is_key_char(#[trigger] s[i])
}

/// The error returned when a key holds a character outside the host's key
/// grammar.
#[derive(Debug, Clone, PartialEq, Eq, Structural)]
pub struct InvalidKey;

impl InvalidKey {
    /// A printable description of the error.
    pub fn message(&self) -> (r: &'static str) {
        "Key is invalid. Only ascii alphanumeric or underscore is allowed."
    }
}

/// An owned, validated map key.
#[derive(Debug)]
pub struct Key {
    s: String,
}

/// A validated map key, as map accessors take it.
pub type KeyStr = Key;

impl View for Key {
    type V = Seq<char>;

    closed spec fn view(&self) -> Seq<char> {
        self.s@
    }
}

impl Key {
    #[verifier::type_invariant]
    spec fn type_inv(&self) -> bool {
        is_valid_key(self.s@)
    }

    /// Checks a string against the key grammar and wraps it. Returns
    /// `InvalidKey` exactly when some character is neither ASCII
    /// alphanumeric nor an underscore.
    pub fn new(s: String) -> (r: Result<Key, InvalidKey>)
        ensures
            match r {
                Ok(k) => k@ == s@ && is_valid_key(s@),
                Err(_) => !is_valid_key(s@),
            },
    {
        let n = s.as_str().unicode_len();
        let mut i: usize = 0;
        while i < n
            invariant
                i <= n,
                n == s@.len(),
                forall|j: int| 0 <= j < i ==> is_key_char(#[trigger] s@[j]),
            decreases n - i,
        {
            let c = s.as_str().get_char(i);
            let ok = ('a' <= c && c <= 'z') || ('A' <= c && c <= 'Z') || ('0' <= c && c <= '9')
                || c == '_';
            if !ok {
                return Err(InvalidKey);
            }
            i = i + 1;
        }
        Ok(Key { s })
    }

    /// Wraps a string already known to satisfy the key grammar.
    pub fn from_checked(s: &str) -> (r: Key)
        requires
            is_valid_key(s@),
        ensures
            r@ == s@,
    {
        match Key::new(s.to_owned()) {
            Ok(k) => k,
            Err(_) => vstd::pervasive::unreached(),
        }
    }

    /// Checks a string slice against the key grammar and wraps a copy.
    pub fn from_str(s: &str) -> (r: Result<Key, InvalidKey>)
        ensures
            match r {
                Ok(k) => k@ == s@ && is_valid_key(s@),
                Err(_) => !is_valid_key(s@),
            },
    {
        Key::new(s.to_owned())
    }

    /// The key's characters.
    pub fn as_str(&self) -> (r: &str)
        ensures
            r@ == self@,
    {
        self.s.as_str()
    }

    /// Whether two keys hold the same characters.
    pub fn same_as(&self, other: &Key) -> (r: bool)
        ensures
            r == (self@ == other@),
    {
        self.s == other.s
    }

    /// A copy of this key.
    pub fn duplicate(&self) -> (r: Key)
        ensures
            r@ == self@,
            is_valid_key(self@),
    {
        proof {
            use_type_invariant(self);
        }
        Key { s: self.s.clone() }
    }
}

} // verus!
