//! Text values that keys and values of context entries are read as.
use vstd::prelude::*;

verus! {

/// A value that can be read as a string slice.
pub trait Text: View<V = Seq<char>> {
    fn as_text(&self) -> (r: &str)
        ensures
            r@ == self@,
    ;
}

impl Text for String {
    fn as_text(&self) -> (r: &str) {
        self.as_str()
    }
}

impl Text for str {
    fn as_text(&self) -> (r: &str) {
        self
    }
}

impl Text for &'static str {
    fn as_text(&self) -> (r: &str) {
        *self
    }
}

/// Returns true when two string slices hold the same characters.
pub fn str_eq(a: &str, b: &str) -> (r: bool)
    ensures
        r == (a@ == b@),
{
    let n = a.unicode_len();
    if n != b.unicode_len() {
        return false;
    }
    let mut i: usize = 0;
    while i < n
        invariant
            n == a@.len(),
            n == b@.len(),
            i <= n,
            forall|j: int| 0 <= j < i ==> a@[j] == b@[j],
        decreases n - i,
    {
        if a.get_char(i) != b.get_char(i) {
            return false;
        }
        i = i + 1;
    }
    assert(a@ =~= b@);
    true
}

} // verus!

verus! {

/// A value that becomes an error message.
pub trait IntoMessage: Sized {
    /// The characters of the message.
    spec fn spec_text(&self) -> Seq<char>;

    fn into_message(self) -> (r: String)
        ensures
            r@ == self.spec_text(),
    ;
}

impl<'a> IntoMessage for &'a str {
    open spec fn spec_text(&self) -> Seq<char> {
        (*self)@
    }

    fn into_message(self) -> (r: String) {
        String::from_str(self)
    }
}

impl IntoMessage for String {
    open spec fn spec_text(&self) -> Seq<char> {
        self@
    }

    fn into_message(self) -> (r: String) {
        self
    }
}

impl<'a> IntoMessage for &'a String {
    open spec fn spec_text(&self) -> Seq<char> {
        (*self)@
    }

    fn into_message(self) -> (r: String) {
        self.clone()
    }
}

/// A value that converts into a `T`, with the view of the result known.
pub trait IntoView<T: View>: Sized {
    /// The view of the converted value.
    spec fn target_view(&self) -> T::V;

    fn into_target(self) -> (r: T)
        ensures
            r@ == self.target_view(),
    ;
}

impl<T: View> IntoView<T> for T {
    open spec fn target_view(&self) -> T::V {
        self@
    }

    fn into_target(self) -> (r: T) {
        self
    }
}

impl<'a> IntoView<String> for &'a str {
    open spec fn target_view(&self) -> Seq<char> {
        (*self)@
    }

    fn into_target(self) -> (r: String) {
        String::from_str(self)
    }
}

impl<'a> IntoView<String> for &'a String {
    open spec fn target_view(&self) -> Seq<char> {
        (*self)@
    }

    fn into_target(self) -> (r: String) {
        self.clone()
    }
}

} // verus!
