//! The text of a file, from the bytes that reading it gave.

use crate::error::Error;
use vstd::prelude::*;
use vstd::utf8::{decode_utf8, valid_utf8};

verus! {

/// Decodes `bytes` with `String::from_utf8`. The standard library documents
/// that the call succeeds exactly on well-formed UTF-8 and then gives the
/// characters that the bytes encode; this is believed, not proved.
#[verifier::external_body]
fn utf8_text(bytes: Vec<u8>) -> (text: Option<String>)
    ensures
        text is Some <==> valid_utf8(bytes@),
        text is Some ==> text->Some_0@ == decode_utf8(bytes@),
{
    match String::from_utf8(bytes) {
        Ok(text) => Some(text),
        Err(_) => None,
    }
}

/// What `read_file` returns for the outcome of reading a file.
pub open spec fn file_text(contents: Option<Seq<u8>>) -> Result<Seq<char>, Error> {
    match contents {
        None => Err(Error::FileNotFound),
        Some(bytes) => if valid_utf8(bytes) {
            Ok(decode_utf8(bytes))
        } else {
            Err(Error::Decode)
        },
    }
}

/// The view of what reading a file gave.
pub open spec fn contents_view(contents: Option<Vec<u8>>) -> Option<Seq<u8>> {
    match contents {
        None => None,
        Some(bytes) => Some(bytes@),
    }
}

/// The text of a file whose whole contents the caller has read: `None`
/// stands for a file that could not be opened or read.
///
/// The bytes are decoded as UTF-8, all of them; there is no other
/// encoding and no limit on the size.
pub fn read_file(contents: Option<Vec<u8>>) -> (text: Result<String, Error>)
    ensures
        match file_text(contents_view(contents)) {
            Ok(chars) => text is Ok && text->Ok_0@ == chars,
            Err(e) => text == Err::<String, Error>(e),
        },
{
    match contents {
        None => Err(Error::FileNotFound),
        Some(bytes) => match utf8_text(bytes) {
            Some(text) => Ok(text),
            None => Err(Error::Decode),
        },
    }
}

} // verus!
