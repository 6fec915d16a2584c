//! Validator derivation: an entity tag and a Last-Modified date, both pure
//! functions of the file metadata read once per request.
//!
//! The entity tag renders the identifier, size and modification time in
//! fixed-width decimal inside one quoted string, so equal metadata always
//! yields the same tag and any change to a field changes the tag.

use vstd::prelude::*;
use vstd::string::*;

use crate::httpdate::format_http_date;
use crate::httpdate::http_date_of;
use crate::text::abs_i64;
use crate::text::dec_fixed;
use crate::text::lemma_dec_fixed_injective;
use crate::text::lemma_dec_fixed_len;
use crate::text::pow10;
use crate::text::u64_to_dec_fixed;

verus! {

/// What the backend reads from a file's metadata: size in bytes, a
/// filesystem-unique identifier (an inode number), and the modification
/// time as a UNIX timestamp with nanosecond remainder.
#[derive(Clone, Copy, PartialEq, Eq, Structural, Debug)]
pub struct FileMetadata {
    pub size: u64,
    pub inode: u64,
    pub modified_secs: i64,
    pub modified_nanos: u32,
}

/// The sign marker of the modification timestamp inside the entity tag.
pub open spec fn sign_char_of(secs: i64) -> char {
    if secs < 0 {
        'n'
    } else {
        'p'
    }
}

/// The entity tag derived from file metadata: the quoted fixed-width
/// decimal rendering of identifier, size and modification time.
pub open spec fn etag_of(m: FileMetadata) -> Seq<char> {
    seq!['"'] + dec_fixed(m.inode as nat, 20) + seq!['-'] + dec_fixed(m.size as nat, 20)
        + seq!['-'] + seq![sign_char_of(m.modified_secs)] + dec_fixed(
        abs_i64(m.modified_secs),
        19,
    ) + seq!['.'] + dec_fixed(m.modified_nanos as nat, 10) + seq!['"']
}

/// The magnitude of an `i64`, as a `u64`.
pub fn abs_u64_of(secs: i64) -> (r: u64)
    ensures
        r as nat == abs_i64(secs),
{
    if secs == i64::MIN {
        9223372036854775808u64
    } else if secs < 0 {
        (-secs) as u64
    } else {
        secs as u64
    }
}

/// The quoted entity tag for the given metadata.
pub fn generate_etag(meta: &FileMetadata) -> (r: String)
    ensures
        r@ == etag_of(*meta),
{
    proof {
        reveal_strlit("\"");
        reveal_strlit("-");
        reveal_strlit(".");
        reveal_strlit("n");
        reveal_strlit("p");
    }
    let mut s: String = "\"".to_owned();
    let inode_part = u64_to_dec_fixed(meta.inode, 20);
    s.append(inode_part.as_str());
    s.append("-");
    let size_part = u64_to_dec_fixed(meta.size, 20);
    s.append(size_part.as_str());
    s.append("-");
    if meta.modified_secs < 0 {
        s.append("n");
    } else {
        s.append("p");
    }
    let mag = abs_u64_of(meta.modified_secs);
    let secs_part = u64_to_dec_fixed(mag, 19);
    s.append(secs_part.as_str());
    s.append(".");
    let nanos_part = u64_to_dec_fixed(meta.modified_nanos as u64, 10);
    s.append(nanos_part.as_str());
    s.append("\"");
    proof {
        assert(s@ =~= etag_of(*meta));
    }
    s
}

/// Derive the validator pair from metadata: the entity tag and the
/// Last-Modified date string.
pub fn validate(meta: &FileMetadata) -> (r: (String, String))
    ensures
        r.0@ == etag_of(*meta),
        r.1@ == http_date_of(meta.modified_secs),
{
    let etag = generate_etag(meta);
    let last_modified = format_http_date(meta.modified_secs);
    (etag, last_modified)
}

/// Validator determinism: any two validator pairs derived from the same
/// metadata are identical, character for character.
pub proof fn lemma_validator_deterministic(
    m: FileMetadata,
    e1: Seq<char>,
    d1: Seq<char>,
    e2: Seq<char>,
    d2: Seq<char>,
)
    requires
        e1 == etag_of(m),
        d1 == http_date_of(m.modified_secs),
        e2 == etag_of(m),
        d2 == http_date_of(m.modified_secs),
    ensures
        e1 == e2,
        d1 == d2,
{
}

proof fn lemma_etag_lens(m: FileMetadata)
    ensures
        etag_of(m).len() == 75,
        forall|i: int|
            0 <= i < 20 ==> etag_of(m)[1 + i] == dec_fixed(m.inode as nat, 20)[i],
        forall|i: int|
            0 <= i < 20 ==> etag_of(m)[22 + i] == dec_fixed(m.size as nat, 20)[i],
        etag_of(m)[43] == sign_char_of(m.modified_secs),
        forall|i: int|
            0 <= i < 19 ==> etag_of(m)[44 + i] == dec_fixed(abs_i64(m.modified_secs), 19)[i],
        forall|i: int|
            0 <= i < 10 ==> etag_of(m)[64 + i] == dec_fixed(m.modified_nanos as nat, 10)[i],
{
    lemma_dec_fixed_len(m.inode as nat, 20);
    lemma_dec_fixed_len(m.size as nat, 20);
    lemma_dec_fixed_len(abs_i64(m.modified_secs), 19);
    lemma_dec_fixed_len(m.modified_nanos as nat, 10);
}

/// Sensitivity of the entity tag: equal tags come only from equal metadata,
/// so changing the size, the identifier, or the modification time always
/// changes the tag.
pub proof fn lemma_etag_injective(m1: FileMetadata, m2: FileMetadata)
    requires
        etag_of(m1) == etag_of(m2),
    ensures
        m1 == m2,
{
    reveal_with_fuel(pow10, 21);
    lemma_etag_lens(m1);
    lemma_etag_lens(m2);
    lemma_dec_fixed_len(m1.inode as nat, 20);
    lemma_dec_fixed_len(m2.inode as nat, 20);
    lemma_dec_fixed_len(m1.size as nat, 20);
    lemma_dec_fixed_len(m2.size as nat, 20);
    lemma_dec_fixed_len(abs_i64(m1.modified_secs), 19);
    lemma_dec_fixed_len(abs_i64(m2.modified_secs), 19);
    lemma_dec_fixed_len(m1.modified_nanos as nat, 10);
    lemma_dec_fixed_len(m2.modified_nanos as nat, 10);
    assert forall|i: int| 0 <= i < 20 implies dec_fixed(m1.inode as nat, 20)[i] == dec_fixed(
        m2.inode as nat,
        20,
    )[i] by {
        assert(etag_of(m1)[1 + i] == etag_of(m2)[1 + i]);
    }
    assert(dec_fixed(m1.inode as nat, 20) =~= dec_fixed(m2.inode as nat, 20));
    assert forall|i: int| 0 <= i < 20 implies dec_fixed(m1.size as nat, 20)[i] == dec_fixed(
        m2.size as nat,
        20,
    )[i] by {
        assert(etag_of(m1)[22 + i] == etag_of(m2)[22 + i]);
    }
    assert(dec_fixed(m1.size as nat, 20) =~= dec_fixed(m2.size as nat, 20));
    assert forall|i: int| 0 <= i < 19 implies dec_fixed(abs_i64(m1.modified_secs), 19)[i]
        == dec_fixed(abs_i64(m2.modified_secs), 19)[i] by {
        assert(etag_of(m1)[44 + i] == etag_of(m2)[44 + i]);
    }
    assert(dec_fixed(abs_i64(m1.modified_secs), 19) =~= dec_fixed(abs_i64(m2.modified_secs), 19));
    assert forall|i: int| 0 <= i < 10 implies dec_fixed(m1.modified_nanos as nat, 10)[i]
        == dec_fixed(m2.modified_nanos as nat, 10)[i] by {
        assert(etag_of(m1)[64 + i] == etag_of(m2)[64 + i]);
    }
    assert(dec_fixed(m1.modified_nanos as nat, 10) =~= dec_fixed(m2.modified_nanos as nat, 10));
    assert(pow10(20) == 100000000000000000000nat);
    assert(pow10(19) == 10000000000000000000nat);
    assert(pow10(10) == 10000000000nat);
    lemma_dec_fixed_injective(m1.inode as nat, m2.inode as nat, 20);
    lemma_dec_fixed_injective(m1.size as nat, m2.size as nat, 20);
    lemma_dec_fixed_injective(abs_i64(m1.modified_secs), abs_i64(m2.modified_secs), 19);
    lemma_dec_fixed_injective(m1.modified_nanos as nat, m2.modified_nanos as nat, 10);
    assert(sign_char_of(m1.modified_secs) == sign_char_of(m2.modified_secs));
    assert(m1.modified_secs == m2.modified_secs);
}

} // verus!
