//! How a stored key is compared against a query.
use vstd::prelude::*;

verus! {

/// A stored key type that can be compared against a query of type `Q`.
///
/// Both sides have views of the same type, and a key matches a query
/// exactly when their views are equal: an owned `String` key matches a
/// `str` query holding the same characters.
pub trait KeyMatch<Q: View + ?Sized>: View<V = <Q as View>::V> {
    /// Whether this key matches `query`.
    fn key_matches(&self, query: &Q) -> (r: bool)
        ensures
            r == (self@ == query@),
    ;
}

/// Character-by-character comparison of two string slices.
fn str_equal(a: &str, b: &str) -> (r: bool)
    ensures
        r == (a@ == b@),
{
    let n: usize = a.unicode_len();
    if n != b.unicode_len() {
        return false;
    }
    let mut i: usize = 0;
    while i < n
        invariant
            n == a@.len(),
            n == b@.len(),
            i <= n,
            forall|j: int| 0 <= j < i ==> a@[j] == b@[j],
        decreases n - i,
    {
        if a.get_char(i) != b.get_char(i) {
            return false;
        }
        i = i + 1;
    }
    assert(a@ =~= b@);
    true
}

impl<'a> KeyMatch<str> for &'a str {
    fn key_matches(&self, query: &str) -> (r: bool) {
        str_equal(*self, query)
    }
}

impl<'a, 'b> KeyMatch<&'b str> for &'a str {
    fn key_matches(&self, query: &&'b str) -> (r: bool) {
        str_equal(*self, *query)
    }
}

impl KeyMatch<str> for String {
    fn key_matches(&self, query: &str) -> (r: bool) {
        str_equal(self.as_str(), query)
    }
}

impl KeyMatch<String> for String {
    fn key_matches(&self, query: &String) -> (r: bool) {
        str_equal(self.as_str(), query.as_str())
    }
}

impl KeyMatch<u8> for u8 {
    fn key_matches(&self, query: &u8) -> (r: bool) {
        *self == *query
    }
}

impl KeyMatch<u16> for u16 {
    fn key_matches(&self, query: &u16) -> (r: bool) {
        *self == *query
    }
}

impl KeyMatch<u32> for u32 {
    fn key_matches(&self, query: &u32) -> (r: bool) {
        *self == *query
    }
}

impl KeyMatch<u64> for u64 {
    fn key_matches(&self, query: &u64) -> (r: bool) {
        *self == *query
    }
}

impl KeyMatch<usize> for usize {
    fn key_matches(&self, query: &usize) -> (r: bool) {
        *self == *query
    }
}

impl KeyMatch<i32> for i32 {
    fn key_matches(&self, query: &i32) -> (r: bool) {
        *self == *query
    }
}

impl KeyMatch<i64> for i64 {
    fn key_matches(&self, query: &i64) -> (r: bool) {
        *self == *query
    }
}

impl KeyMatch<char> for char {
    fn key_matches(&self, query: &char) -> (r: bool) {
        *self == *query
    }
}

} // verus!
