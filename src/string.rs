use vstd::prelude::*;
use vstd::string::StringSliceAdditionalSpecFns;

verus! {

/// Text owned on the module's side of the host boundary, with its byte
/// length.
pub struct String {
    data: std::string::String,
    size: u64,
}

impl View for String {
    type V = Seq<char>;

    closed spec fn view(&self) -> Seq<char> {
        self.data@
    }
}

impl String {
    /// Its length in bytes.
    pub closed spec fn byte_len(&self) -> nat {
        self.size as nat
    }

    /// Copies `text`.
    pub fn new(text: &str) -> (r: String)
        ensures
            r@ == text@,
            r.byte_len() == text.spec_bytes().len(),
    {
        let n: usize = text.as_bytes().len();
        let size = n as u64;

        String { data: text.to_owned(), size }
    }

    /// Whether it holds no byte.
    pub fn is_empty(&self) -> (r: bool)
        ensures
            r == (self.byte_len() == 0),
    {
        self.size == 0
    }

    /// A copy of the text.
    pub fn get_data(&self) -> (r: std::string::String)
        ensures
            r@ == self@,
    {
        self.data.clone()
    }

    /// Its length in bytes.
    pub fn get_size(&self) -> (r: u64)
        ensures
            r == self.byte_len(),
    {
        self.size
    }
}

/// Text borrowed across the host boundary, with its byte length.
pub struct StringView {
    data: std::string::String,
    size: u64,
}

impl View for StringView {
    type V = Seq<char>;

    closed spec fn view(&self) -> Seq<char> {
        self.data@
    }
}

impl StringView {
    /// Its length in bytes.
    pub closed spec fn byte_len(&self) -> nat {
        self.size as nat
    }

    /// Copies `text`.
    pub fn new(text: &str) -> (r: StringView)
        ensures
            r@ == text@,
            r.byte_len() == text.spec_bytes().len(),
    {
        let n: usize = text.as_bytes().len();
        let size = n as u64;

        StringView { data: text.to_owned(), size }
    }

    /// Whether it holds no byte.
    pub fn is_empty(&self) -> (r: bool)
        ensures
            r == (self.byte_len() == 0),
    {
        self.size == 0
    }

    /// A copy of the text.
    pub fn get_data(&self) -> (r: std::string::String)
        ensures
            r@ == self@,
    {
        self.data.clone()
    }

    /// Its length in bytes.
    pub fn get_size(&self) -> (r: u64)
        ensures
            r == self.byte_len(),
    {
        self.size
    }
}

} // verus!
