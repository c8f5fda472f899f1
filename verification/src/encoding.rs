//! The content encodings a payload can be stored in, and the test whether a
//! client offers one of them.

use crate::header::{header_value_from_bytes, header_value_view};
use crate::scan::{contains, contains_subseq};
use http::HeaderValue;
use vstd::pervasive::unreached;
use vstd::prelude::*;
use vstd::string::StringSliceAdditionalSpecFns;

verus! {

/// A content encoding.
#[derive(Debug, PartialEq, Eq, Clone, Copy, Structural)]
pub enum Encoding {
    Identity,
    Br,
    Gzip,
    Deflate,
}

impl Encoding {
    /// The name of the encoding as it is written in a header.
    pub open spec fn wire_str(self) -> &'static str {
        match self {
            Encoding::Identity => "identity",
            Encoding::Br => "br",
            Encoding::Gzip => "gzip",
            Encoding::Deflate => "deflate",
        }
    }

    /// The bytes of the encoding's name.
    pub open spec fn wire_name(self) -> Seq<u8> {
        self.wire_str().spec_bytes()
    }

    /// The name is written in lower-case ASCII letters, one byte each.
    pub proof fn lemma_wire_name(self)
        ensures
            self == Encoding::Identity ==> self.wire_name() == seq![
                0x69u8, 0x64, 0x65, 0x6e, 0x74, 0x69, 0x74, 0x79
            ],
            self == Encoding::Br ==> self.wire_name() == seq![0x62u8, 0x72],
            self == Encoding::Gzip ==> self.wire_name() == seq![0x67u8, 0x7a, 0x69, 0x70],
            self == Encoding::Deflate ==> self.wire_name() == seq![
                0x64u8, 0x65, 0x66, 0x6c, 0x61, 0x74, 0x65
            ],
    {
        broadcast use vstd::string::is_ascii_spec_bytes;

        reveal_strlit("identity");
        reveal_strlit("br");
        reveal_strlit("gzip");
        reveal_strlit("deflate");
        assert(vstd::string::is_ascii(self.wire_str()));
    }

    pub fn as_bytes(&self) -> (name: &'static [u8])
        ensures
            name@ == self.wire_name(),
    {
        self.as_str().as_bytes()
    }

    pub fn as_str(&self) -> (name: &'static str)
        ensures
            name@ == self.wire_str()@,
    {
        match self {
            Encoding::Identity => "identity",
            Encoding::Br => "br",
            Encoding::Gzip => "gzip",
            Encoding::Deflate => "deflate",
        }
    }

    /// The header value that names the encoding.
    pub fn header_value(&self) -> (value: HeaderValue)
        ensures
            header_value_view(value) == self.wire_name(),
    {
        proof {
            self.lemma_wire_name();
        }
        match header_value_from_bytes(self.as_bytes()) {
            Ok(value) => value,
            Err(_) => unreached(),
        }
    }

    /// Whether the name of the encoding occurs anywhere in `target`, the bytes
    /// of a header value. The test is a plain search for the name: it takes
    /// no notice of list syntax or of quality values.
    pub fn is_contained_in(&self, target: &[u8]) -> (offered: bool)
        ensures
            offered == contains_subseq(target@, self.wire_name()),
    {
        contains(target, self.as_bytes())
    }
}

} // verus!
