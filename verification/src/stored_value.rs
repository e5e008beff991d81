use vstd::prelude::*;

verus! {

/// A value that can live in the host's key-value persistence as a string.
/// The host hands the stored string in and writes the encoded string back
/// out; this library only decides what the strings mean.
pub trait StorableValue: Sized {
    /// Whether this value is the type's fallback when nothing usable is
    /// stored.
    spec fn is_default_value(self) -> bool;

    /// Whether the stored string `s` decodes to some value.
    spec fn parses(s: Seq<char>) -> bool;

    /// Whether `s` is an encoding of this value.
    spec fn matches_encoding(self, s: Seq<char>) -> bool;

    /// The fallback value.
    fn storage_default() -> (r: Self)
        ensures
            r.is_default_value(),
    ;

    /// Decodes a stored string; `None` exactly when nothing parses.
    fn parse_storage(s: &str) -> (r: Option<Self>)
        ensures
            r is Some <==> Self::parses(s@),
            r matches Some(v) ==> v.matches_encoding(s@),
    ;

    /// Encodes the value for storage.
    fn encode_storage(&self) -> (r: String)
        ensures
            self.matches_encoding(r@),
    ;
}

impl StorableValue for bool {
    open spec fn is_default_value(self) -> bool {
        self == false
    }

    open spec fn parses(s: Seq<char>) -> bool {
        s == "true"@ || s == "false"@
    }

    open spec fn matches_encoding(self, s: Seq<char>) -> bool {
        if self {
            s == "true"@
        } else {
            s == "false"@
        }
    }

    fn storage_default() -> (r: bool) {
        false
    }

    fn parse_storage(s: &str) -> (r: Option<bool>) {
        let owned = s.to_owned();
        if owned == String::from_str("true") {
            Some(true)
        } else if owned == String::from_str("false") {
            Some(false)
        } else {
            None
        }
    }

    fn encode_storage(&self) -> (r: String) {
        if *self {
            String::from_str("true")
        } else {
            String::from_str("false")
        }
    }
}

impl StorableValue for String {
    open spec fn is_default_value(self) -> bool {
        self@ == Seq::<char>::empty()
    }

    open spec fn parses(s: Seq<char>) -> bool {
        true
    }

    open spec fn matches_encoding(self, s: Seq<char>) -> bool {
        self@ == s
    }

    fn storage_default() -> (r: String) {
        String::new()
    }

    fn parse_storage(s: &str) -> (r: Option<String>) {
        Some(s.to_owned())
    }

    fn encode_storage(&self) -> (r: String) {
        self.clone()
    }
}

/// A named value backed by the host's persistence. The host reads the
/// stored string once at construction and writes the string that `save`
/// returns; in between, the value lives here.
pub struct StoredValue<T: StorableValue> {
    value: T,
    name: String,
}

impl<T: StorableValue> StoredValue<T> {
    /// The held value.
    pub closed spec fn spec_value(self) -> T {
        self.value
    }

    /// The persistence key.
    pub closed spec fn spec_name(self) -> Seq<char> {
        self.name@
    }

    /// Takes the string the host found stored under `name` (or `None`) and
    /// falls back to the type's default when nothing usable was stored.
    pub fn new(name: &str, stored: Option<String>) -> (r: StoredValue<T>)
        ensures
            r.spec_name() == name@,
            match stored {
                Some(s) => if T::parses(s@) {
                    r.spec_value().matches_encoding(s@)
                } else {
                    r.spec_value().is_default_value()
                },
                None => r.spec_value().is_default_value(),
            },
    {
        Self::new_with_default(name, stored, T::storage_default())
    }

    /// Like `new`, but with a caller-supplied fallback value.
    pub fn new_with_default(name: &str, stored: Option<String>, default: T) -> (r: StoredValue<T>)
        ensures
            r.spec_name() == name@,
            match stored {
                Some(s) => if T::parses(s@) {
                    r.spec_value().matches_encoding(s@)
                } else {
                    r.spec_value() == default
                },
                None => r.spec_value() == default,
            },
    {
        let value = match stored {
            Some(s) => match T::parse_storage(s.as_str()) {
                Some(v) => v,
                None => default,
            },
            None => default,
        };
        StoredValue { value, name: name.to_owned() }
    }

    /// Replaces the held value.
    pub fn set(&mut self, value: T)
        ensures
            final(self).spec_value() == value,
            final(self).spec_name() == old(self).spec_name(),
    {
        self.value = value;
    }

    /// The string the host should write back under this value's name.
    pub fn save(&self) -> (r: String)
        ensures
            self.spec_value().matches_encoding(r@),
    {
        self.value.encode_storage()
    }

    /// The held value, for reading.
    pub fn value(&self) -> (r: &T)
        ensures
            *r == self.spec_value(),
    {
        &self.value
    }

    /// The persistence key.
    pub fn name(&self) -> (r: &String)
        ensures
            r@ == self.spec_name(),
    {
        &self.name
    }
}

/// For the provided encodings, a value written out and read back is the
/// value itself: saving never loses information.
pub proof fn lemma_bool_round_trip(v: bool, s: Seq<char>)
    requires
        v.matches_encoding(s),
    ensures
        <bool as StorableValue>::parses(s),
        forall|w: bool| w.matches_encoding(s) ==> w == v,
{
    reveal_strlit("true");
    reveal_strlit("false");
    assert("true"@.len() == 4);
    assert("false"@.len() == 5);
}

} // verus!
