//! The identifier under which a machine keeps its own timer, and which it
//! hands out as the token for joining that timer.

use crate::text::{hex_text, lemma_hex_text_len, push_hex};
use vstd::prelude::*;
use vstd::string::*;
use vstd::utf8::encode_utf8;

verus! {

/// The MD5 digest of `data`, as `md5::compute` returns it.
pub uninterp spec fn md5_of(data: Seq<u8>) -> Seq<u8>;

/// Calls `md5::compute` and takes the sixteen bytes out of the `Digest`.
///
/// The digest is a function of the data alone; what it is, is not stated.
#[verifier::external_body]
fn md5_digest(data: &[u8]) -> (digest: [u8; 16])
    ensures
        digest@ == md5_of(data@),
{
    md5::compute(data).0
}

/// The connection identifier of the machine whose identity is `machine_uid`:
/// the MD5 digest of its UTF-8 bytes, written as 32 hexadecimal digits.
pub open spec fn connection_id(machine_uid: Seq<char>) -> Seq<char> {
    hex_text(md5_of(encode_utf8(machine_uid)))
}

/// Derives the connection identifier from the machine's identity.
///
/// The same identity gives the same identifier on every call. Two machines
/// may share one: the digest is not meant to tell all machines apart.
pub fn get_connection_id(machine_uid: &str) -> (id: String)
    ensures
        id@ == connection_id(machine_uid@),
        id@.len() == 32,
{
    let digest = md5_digest(machine_uid.as_bytes());
    let mut id = String::new();
    push_hex(&mut id, digest.as_slice());
    proof {
        lemma_hex_text_len(digest@);
    }
    id
}

} // verus!
