//! A text buffer over `string_builder::Builder`.
//!
//! The builder is a byte buffer of an outside crate. What this module assumes
//! of it stands in the four items at the top; the rest is proved from them.

use std::string::FromUtf8Error;
use string_builder::Builder;
use vstd::prelude::*;
use vstd::string::StringSliceAdditionalSpecFns;
use vstd::utf8::{
    encode_utf8, encode_utf8_decode_utf8, encode_utf8_valid_utf8, valid_utf8,
};

verus! {

/// `string_builder::Builder`, a growable buffer of bytes.
#[verifier::external_type_specification]
#[verifier::external_body]
pub struct ExBuilder(Builder);

/// `std::string::FromUtf8Error`, which `Builder::string` returns for a buffer
/// that is not UTF-8.
#[verifier::external_type_specification]
#[verifier::external_body]
pub struct ExFromUtf8Error(FromUtf8Error);

/// The bytes that a builder holds, in the order in which they were appended.
pub uninterp spec fn builder_bytes(builder: Builder) -> Seq<u8>;

/// `Builder::default`: a builder that holds no bytes.
#[verifier::external_body]
fn builder_default() -> (builder: Builder)
    ensures
        builder_bytes(builder) == Seq::<u8>::empty(),
{
    Builder::default()
}

/// `Builder::append` for a string slice: the slice's UTF-8 bytes are added
/// behind the bytes already held.
#[verifier::external_body]
fn builder_append(builder: &mut Builder, text: &str)
    ensures
        builder_bytes(*final(builder)) == builder_bytes(*old(builder)) + text.spec_bytes(),
{
    builder.append(text)
}

/// `Builder::string`: the buffer handed to `String::from_utf8`. The call
/// succeeds exactly when the bytes held are UTF-8, and the string then
/// consists of those bytes.
#[verifier::external_body]
fn builder_string(builder: Builder) -> (outcome: Result<String, FromUtf8Error>)
    ensures
        outcome is Ok <==> valid_utf8(builder_bytes(builder)),
        outcome matches Ok(text) ==> encode_utf8(text@) == builder_bytes(builder),
{
    builder.string()
}

/// Encoding a concatenation gives the concatenation of the encodings.
pub proof fn lemma_encode_utf8_concat(left: Seq<char>, right: Seq<char>)
    ensures
        encode_utf8(left + right) == encode_utf8(left) + encode_utf8(right),
    decreases left.len(),
{
    if left.len() == 0 {
        assert(left + right =~= right);
        assert(encode_utf8(left) + encode_utf8(right) =~= encode_utf8(right));
    } else {
        assert((left + right).drop_first() =~= left.drop_first() + right);
        assert((left + right)[0] == left[0]);
        lemma_encode_utf8_concat(left.drop_first(), right);
        assert(encode_utf8(left + right) =~= encode_utf8(left) + encode_utf8(right));
    }
}

/// A text under construction. Pieces are appended at the end; the finished
/// text is the concatenation of the pieces.
pub struct TextBuffer {
    builder: Builder,
    text: Ghost<Seq<char>>,
}

impl TextBuffer {
    /// The bytes held are the encoding of the text appended so far.
    pub closed spec fn well_formed(self) -> bool {
        builder_bytes(self.builder) == encode_utf8(self.text@)
    }

    /// The text appended so far.
    pub closed spec fn view(self) -> Seq<char> {
        self.text@
    }

    /// A buffer that holds the empty text.
    pub fn new() -> (buffer: TextBuffer)
        ensures
            buffer.well_formed(),
            buffer@ == Seq::<char>::empty(),
    {
        let builder = builder_default();
        assert(encode_utf8(Seq::<char>::empty()) =~= Seq::<u8>::empty());
        TextBuffer { builder, text: Ghost(Seq::empty()) }
    }

    /// Appends a piece of text.
    pub fn push(&mut self, piece: &str)
        requires
            old(self).well_formed(),
        ensures
            final(self).well_formed(),
            final(self)@ == old(self)@ + piece@,
    {
        proof {
            lemma_encode_utf8_concat(self.text@, piece@);
        }
        builder_append(&mut self.builder, piece);
        self.text = Ghost(self.text@ + piece@);
    }

    /// The text appended, as a string.
    pub fn finish(self) -> (text: String)
        requires
            self.well_formed(),
        ensures
            text@ == self@,
    {
        proof {
            encode_utf8_valid_utf8(self.text@);
        }
        let ghost expected = self.text@;
        match builder_string(self.builder) {
            Ok(text) => {
                proof {
                    encode_utf8_decode_utf8(text@);
                    encode_utf8_decode_utf8(expected);
                }
                text
            },
            Err(_) => {
                proof {
                    assert(false);
                }
                String::new()
            },
        }
    }
}

} // verus!
