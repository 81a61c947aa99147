use vstd::prelude::*;

verus! {

/// Text of an instruction operand.
///
/// The two variants differ only in how the text is stored: a literal keyword is kept as a
/// `&'static str`, anything computed is owned. Every operation looks at the text alone.
#[derive(Debug)]
pub enum String {
    Owned(std::string::String),
    Static(&'static str),
}

impl View for String {
    type V = Seq<char>;

    open spec fn view(&self) -> Seq<char> {
        match self {
            String::Owned(s) => s@,
            String::Static(s) => s@,
        }
    }
}

impl Clone for String {
    fn clone(&self) -> (r: Self)
        ensures
            r == *self,
    {
        match self {
            String::Owned(s) => String::Owned(s.clone()),
            String::Static(s) => String::Static(s),
        }
    }
}

impl String {
    /// Owned operand text holding a copy of `s`.
    pub fn new(s: &str) -> (r: Self)
        ensures
            r is Owned,
            r@ == s@,
    {
        String::Owned(s.to_owned())
    }

    pub fn as_str(&self) -> (r: &str)
        ensures
            r@ == self@,
    {
        match self {
            String::Owned(s) => s.as_str(),
            String::Static(s) => s,
        }
    }

    pub fn is_empty(&self) -> (r: bool)
        ensures
            r == (self@.len() == 0),
    {
        self.as_str().is_empty()
    }

    /// The text as an owned standard string.
    pub fn to_string(&self) -> (r: std::string::String)
        ensures
            r@ == self@,
    {
        self.as_str().to_owned()
    }
}

} // verus!
