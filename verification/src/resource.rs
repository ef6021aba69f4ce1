//! Files that a project carries along: images and sounds.

use vstd::prelude::*;
use vstd::string::{StrSliceExecFns, StringExecFns};

verus! {

/// Why a resource could not be made.
#[derive(Debug, Clone, PartialEq, Eq)]
pub enum NewResourceError {
    /// The file's path has no extension to tell its format by.
    FilePathHadNoExtension,
    /// The file could not be read; the text says why.
    IO(String),
}

/// The MD5 digest of a sequence of bytes.
pub uninterp spec fn md5_of(data: Seq<u8>) -> Seq<u8>;

/// Computes the MD5 digest of `data`.
///
/// Calls `md5::compute`, which consumes the bytes and returns the 16 bytes
/// of the digest. The digest is a function of the bytes alone; which
/// function is not stated here, only named.
#[verifier::external_body]
fn md5_digest(data: &[u8]) -> (digest: [u8; 16])
    ensures
        digest@ == md5_of(data@),
{
    md5::compute(data).0
}

/// The lower-case hexadecimal digit for `n`, which is below 16.
pub open spec fn hex_digit(n: u8) -> char {
    match n {
        0 => '0',
        1 => '1',
        2 => '2',
        3 => '3',
        4 => '4',
        5 => '5',
        6 => '6',
        7 => '7',
        8 => '8',
        9 => '9',
        10 => 'a',
        11 => 'b',
        12 => 'c',
        13 => 'd',
        14 => 'e',
        _ => 'f',
    }
}

/// Character `k` of the hexadecimal form of `bytes`: the high digit of
/// byte `k / 2` where `k` is even, its low digit where `k` is odd.
pub open spec fn hex_char_at(bytes: Seq<u8>, k: int) -> char {
    if k % 2 == 0 {
        hex_digit(bytes[k / 2] / 16)
    } else {
        hex_digit(bytes[k / 2] % 16)
    }
}

/// The hexadecimal form of `bytes`: two lower-case digits for each byte,
/// the high digit first.
pub open spec fn hex_lower(bytes: Seq<u8>) -> Seq<char> {
    Seq::new(2 * bytes.len(), |k: int| hex_char_at(bytes, k))
}

/// The sixteen digits, in order.
pub const HEX_DIGITS: &'static str = "0123456789abcdef";

proof fn lemma_hex_digits()
    ensures
        HEX_DIGITS@.len() == 16,
        forall|n: u8| n < 16 ==> HEX_DIGITS@[n as int] == #[trigger] hex_digit(n),
{
    reveal_strlit("0123456789abcdef");
}

/// Appends the digit for `n` to `s`.
fn push_digit(s: &mut String, n: u8)
    requires
        n < 16,
    ensures
        final(s)@ == old(s)@.push(hex_digit(n)),
{
    proof {
        lemma_hex_digits();
    }
    let at: usize = n as usize;
    s.append(HEX_DIGITS.substring_char(at, at + 1));
    assert(s@ =~= old(s)@.push(hex_digit(n)));
}

/// Writes `bytes` in hexadecimal.
pub fn to_hex(bytes: &[u8]) -> (s: String)
    ensures
        s@ == hex_lower(bytes@),
{
    let n: usize = bytes.len();
    let mut s = String::new();
    let mut i: usize = 0;
    while i < n
        invariant
            n == bytes@.len(),
            i <= n,
            s@.len() == 2 * i,
            forall|k: int| 0 <= k < 2 * i ==> s@[k] == hex_char_at(bytes@, k),
        decreases n - i,
    {
        let b: u8 = bytes[i];
        push_digit(&mut s, b / 16);
        push_digit(&mut s, b % 16);
        i += 1;
    }
    assert(s@ =~= hex_lower(bytes@));
    s
}

/// The MD5 digest of `data`, in hexadecimal.
pub fn compute_md5_hash(data: &[u8]) -> (s: String)
    ensures
        s@ == hex_lower(md5_of(data@)),
{
    let digest = md5_digest(data);
    to_hex(digest.as_slice())
}

/// A file's content, with the extension that tells its format and the
/// digest that names it.
#[derive(Debug, PartialEq, Eq)]
pub struct Resource {
    content: Vec<u8>,
    file_extension: String,
    md5_hash: String,
}

/// What a resource holds.
pub struct ResourceView {
    pub content: Seq<u8>,
    pub file_extension: Seq<char>,
    pub md5_hash: Seq<char>,
}

impl View for Resource {
    type V = ResourceView;

    closed spec fn view(&self) -> ResourceView {
        ResourceView {
            content: self.content@,
            file_extension: self.file_extension@,
            md5_hash: self.md5_hash@,
        }
    }
}

impl Clone for Resource {
    fn clone(&self) -> (r: Self)
        ensures
            r@ == self@,
    {
        let mut content: Vec<u8> = Vec::new();
        let mut i: usize = 0;
        while i < self.content.len()
            invariant
                i <= self.content@.len(),
                content@ == self.content@.take(i as int),
            decreases self.content@.len() - i,
        {
            content.push(self.content[i]);
            assert(content@ =~= self.content@.take(i + 1));
            i += 1;
        }
        assert(content@ =~= self.content@);
        Resource {
            content,
            file_extension: self.file_extension.clone(),
            md5_hash: self.md5_hash.clone(),
        }
    }
}

impl Resource {
    /// The resource's digest is the MD5 digest of its content, in
    /// hexadecimal.
    pub open spec fn well_formed(&self) -> bool {
        self@.md5_hash == hex_lower(md5_of(self@.content))
    }

    /// A resource with the given content and extension.
    pub fn new(content: Vec<u8>, file_extension: &str) -> (r: Resource)
        ensures
            r@.content == content@,
            r@.file_extension == file_extension@,
            r.well_formed(),
    {
        let md5_hash = compute_md5_hash(content.as_slice());
        Resource { content, file_extension: file_extension.to_owned(), md5_hash }
    }

    /// A resource from what was read of a file: its content, and the
    /// extension of its path. A path without an extension is refused.
    pub fn from_file(content: Vec<u8>, file_extension: Option<String>) -> (r: Result<
        Resource,
        NewResourceError,
    >)
        ensures
            match file_extension {
                Some(extension) => {
                    &&& r is Ok
                    &&& r->Ok_0@.content == content@
                    &&& r->Ok_0@.file_extension == extension@
                    &&& r->Ok_0.well_formed()
                },
                None => r == Err::<Resource, NewResourceError>(
                    NewResourceError::FilePathHadNoExtension,
                ),
            },
    {
        match file_extension {
            None => Err(NewResourceError::FilePathHadNoExtension),
            Some(extension) => Ok(Resource::new(content, extension.as_str())),
        }
    }

    /// The extension that tells the file's format.
    pub fn file_extension(&self) -> (s: &str)
        ensures
            s@ == self@.file_extension,
    {
        self.file_extension.as_str()
    }

    /// The digest of the content, in hexadecimal.
    pub fn md5_hash(&self) -> (s: &str)
        ensures
            s@ == self@.md5_hash,
    {
        self.md5_hash.as_str()
    }

    /// The content.
    pub fn data(&self) -> (d: &[u8])
        ensures
            d@ == self@.content,
    {
        self.content.as_slice()
    }
}

} // verus!
