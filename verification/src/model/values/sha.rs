//! Commit hashes as fixed-size values.

use vstd::prelude::*;
use vstd::string::*;
use vstd::utf8::*;

verus! {

/// Number of characters of a commit hash.
pub const SHA_LENGTH: usize = 40;

/// A commit hash: forty bytes, as they stand in the text it was read from.
#[derive(Clone, Copy, Debug, Hash)]
pub struct Sha(pub [u8; 40]);

/// Reads bytes as text through `core::str::from_utf8`. Taken on trust: the
/// bytes are text exactly when they are well-formed UTF-8, and the text is
/// then made of these very bytes.
#[verifier::external_body]
fn utf8_text(bytes: &[u8]) -> (text: Option<&str>)
    ensures
        text is Some == valid_utf8(bytes@),
        text matches Some(t) ==> t.spec_bytes() == bytes@,
{
    core::str::from_utf8(bytes).ok()
}

impl View for Sha {
    type V = Seq<u8>;

    open spec fn view(&self) -> Seq<u8> {
        self.0@
    }
}

impl Sha {
    /// The hash as text; `"INVALID"` if its bytes are no text.
    pub open spec fn text(&self) -> Seq<char> {
        if valid_utf8(self@) {
            decode_utf8(self@)
        } else {
            "INVALID"@
        }
    }

    /// The hash as text; `"INVALID"` if its bytes are no text.
    pub fn to_str(&self) -> (text: &str)
        ensures
            text@ == self.text(),
    {
        match utf8_text(vstd::array::array_as_slice(&self.0)) {
            Some(t) => {
                proof {
                    encode_utf8_decode_utf8(t@);
                }
                t
            },
            None => "INVALID",
        }
    }

    /// Reads a hash from a text of exactly forty bytes; any other text is
    /// refused.
    pub fn parse(value: &str) -> (sha: Option<Sha>)
        ensures
            sha is Some <==> encode_utf8(value@).len() == SHA_LENGTH,
            sha matches Some(s) ==> s@ == encode_utf8(value@) && s.text() == value@,
    {
        let bytes = value.as_bytes();
        if bytes.len() == SHA_LENGTH {
            let mut sha: [u8; 40] = [0;40];
            let mut i: usize = 0;
            while i < SHA_LENGTH
                invariant
                    i <= SHA_LENGTH,
                    bytes@.len() == SHA_LENGTH,
                    forall|j: int| 0 <= j < i ==> sha@[j] == bytes@[j],
                decreases SHA_LENGTH - i,
            {
                sha[i] = bytes[i];
                i += 1;
            }
            proof {
                assert(sha@ =~= bytes@);
                encode_utf8_valid_utf8(value@);
                encode_utf8_decode_utf8(value@);
            }
            Some(Sha(sha))
        } else {
            None
        }
    }

    /// Whether two hashes are the same, byte for byte.
    pub fn same_as(&self, other: &Sha) -> (same: bool)
        ensures
            same == (self@ == other@),
    {
        let mut i: usize = 0;
        while i < SHA_LENGTH
            invariant
                i <= SHA_LENGTH,
                forall|j: int| 0 <= j < i ==> self@[j] == other@[j],
            decreases SHA_LENGTH - i,
        {
            if self.0[i] != other.0[i] {
                return false;
            }
            i += 1;
        }
        assert(self@ =~= other@);
        true
    }
}

impl PartialEq for Sha {
    fn eq(&self, other: &Sha) -> (same: bool) {
        self.same_as(other)
    }
}

impl Eq for Sha {

}

impl vstd::std_specs::cmp::PartialEqSpecImpl for Sha {
    open spec fn obeys_eq_spec() -> bool {
        true
    }

    open spec fn eq_spec(&self, other: &Sha) -> bool {
        self@ == other@
    }
}

/// A hash read from a text gives that text back.
pub proof fn law_parse_then_text(value: Seq<char>, sha: Sha)
    requires
        sha@ == encode_utf8(value),
    ensures
        sha.text() == value,
{
    encode_utf8_valid_utf8(value);
    encode_utf8_decode_utf8(value);
}

} // verus!
