//! Media file

use vstd::prelude::*;
use vstd::string::StringSliceAdditionalSpecFns;
use vstd::utf8::encode_utf8;

use crate::error::{AVMuxError, NulError};

verus! {

/// `p` is the position of the first NUL byte of `bytes`.
pub open spec fn is_first_nul(bytes: Seq<u8>, p: int) -> bool {
    &&& 0 <= p < bytes.len()
    &&& bytes[p] == 0
    &&& forall|j: int| 0 <= j < p ==> bytes[j] != 0
}

/// `bytes` holds a NUL byte somewhere.
pub open spec fn holds_nul(bytes: Seq<u8>) -> bool {
    exists|j: int| 0 <= j < bytes.len() && bytes[j] == 0
}

/// What turning a url with UTF-8 bytes `bytes` into a C string gives: the
/// bytes themselves when none is NUL, else an error naming the first NUL.
pub open spec fn c_string_result(bytes: Seq<u8>, r: Result<Vec<u8>, AVMuxError>) -> bool {
    match r {
        Ok(v) => v@ == bytes && !holds_nul(bytes),
        Err(AVMuxError::Ffi(e)) => e.bytes@ == bytes && is_first_nul(bytes, e.position as int),
        Err(_) => false,
    }
}

/// The bytes of `url` as a C string (without the terminating NUL); an
/// interior NUL makes it an error, as `CString::new` does.
pub fn c_string_bytes(url: &str) -> (r: Result<Vec<u8>, AVMuxError>)
    ensures
        c_string_result(url.spec_bytes(), r),
{
    let bytes = vstd::slice::slice_to_vec(url.as_bytes());
    let n = bytes.len();
    let mut i: usize = 0;
    while i < n
        invariant
            n == bytes@.len(),
            bytes@ == url.spec_bytes(),
            i <= n,
            forall|j: int| 0 <= j < i ==> bytes@[j] != 0,
        decreases n - i,
    {
        if bytes[i] == 0 {
            return Err(AVMuxError::Ffi(NulError { position: i, bytes }));
        }
        i = i + 1;
    }
    Ok(bytes)
}

/// AV file trait.
pub trait AVFile {
    /// The url, as characters.
    spec fn url(&self) -> Seq<char>;

    /// The file url.
    fn path_url(&self) -> (r: &str)
        ensures
            r@ == self.url(),
    ;

    /// The c-style file url: its bytes, checked to hold no NUL.
    fn c_path_url(&self) -> (r: Result<Vec<u8>, AVMuxError>)
        ensures
            c_string_result(encode_utf8(self.url()), r),
    {
        let s = self.path_url();
        c_string_bytes(s)
    }
}

/// Represents an input file with a URL, which provide video stream.
#[derive(Debug, Clone, PartialEq, Eq)]
pub struct VFile {
    /// The URL of the file.
    pub path_url: String,
}

impl VFile {
    /// Creates a new `Video File` from a url or path.
    pub fn new(path_url: &str) -> (r: VFile)
        ensures
            r.path_url@ == path_url@,
    {
        VFile { path_url: path_url.to_owned() }
    }
}

impl AVFile for VFile {
    open spec fn url(&self) -> Seq<char> {
        self.path_url@
    }

    fn path_url(&self) -> (r: &str) {
        self.path_url.as_str()
    }
}

/// Represents an input file with a URL, which provide audio stream.
#[derive(Debug, Clone, PartialEq, Eq)]
pub struct AFile {
    /// The URL of the file.
    pub path_url: String,
}

impl AFile {
    /// Creates a new `Audio File` from a url or path.
    pub fn new(path_url: &str) -> (r: AFile)
        ensures
            r.path_url@ == path_url@,
    {
        AFile { path_url: path_url.to_owned() }
    }
}

impl AVFile for AFile {
    open spec fn url(&self) -> Seq<char> {
        self.path_url@
    }

    fn path_url(&self) -> (r: &str) {
        self.path_url.as_str()
    }
}

} // verus!
