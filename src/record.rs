use vstd::bytes::{
    lemma_auto_spec_u64_to_from_le_bytes,
    spec_u64_from_le_bytes,
    spec_u64_to_le_bytes,
    u64_from_le_bytes,
    u64_to_le_bytes,
};
use vstd::prelude::*;
use vstd::slice::slice_subrange;
use vstd::string::StringSliceAdditionalSpecFns;
use vstd::utf8::{encode_utf8, encode_utf8_decode_utf8, encode_utf8_valid_utf8, valid_utf8};

use crate::credential::{Credential, CredentialModel};

verus! {

/// The stored form of a credential: the expiry, then the refresh token and the
/// prior fingerprint, each as its byte length followed by its UTF-8 bytes.
/// Every integer takes eight bytes, least significant first.
pub open spec fn record_bytes(c: CredentialModel) -> Seq<u8> {
    let t = encode_utf8(c.refresh_token);
    let f = encode_utf8(c.prior_fingerprint);
    spec_u64_to_le_bytes(c.access_token_expiry) + spec_u64_to_le_bytes(t.len() as u64) + t
        + spec_u64_to_le_bytes(f.len() as u64) + f
}

/// The record of `c` can be held in memory.
pub open spec fn record_fits(c: CredentialModel) -> bool {
    24 + encode_utf8(c.refresh_token).len() + encode_utf8(c.prior_fingerprint).len()
        <= usize::MAX
}

/// `b` is the stored form of some credential.
pub open spec fn is_record(b: Seq<u8>) -> bool {
    exists|c: CredentialModel| record_bytes(c) == b
}

/// Where each part of a record lies.
proof fn lemma_record_layout(c: CredentialModel)
    ensures
        ({
            let b = record_bytes(c);
            let t = encode_utf8(c.refresh_token);
            let f = encode_utf8(c.prior_fingerprint);
            let n = t.len() as int;
            &&& b.len() == 24 + t.len() + f.len()
            &&& b.subrange(0, 8) == spec_u64_to_le_bytes(c.access_token_expiry)
            &&& b.subrange(8, 16) == spec_u64_to_le_bytes(t.len() as u64)
            &&& b.subrange(16, 16 + n) == t
            &&& b.subrange(16 + n, 24 + n) == spec_u64_to_le_bytes(f.len() as u64)
            &&& b.subrange(24 + n, b.len() as int) == f
        }),
{
    lemma_auto_spec_u64_to_from_le_bytes();
    let b = record_bytes(c);
    let t = encode_utf8(c.refresh_token);
    let f = encode_utf8(c.prior_fingerprint);
    let n = t.len() as int;
    assert(b.subrange(0, 8) =~= spec_u64_to_le_bytes(c.access_token_expiry));
    assert(b.subrange(8, 16) =~= spec_u64_to_le_bytes(t.len() as u64));
    assert(b.subrange(16, 16 + n) =~= t);
    assert(b.subrange(16 + n, 24 + n) =~= spec_u64_to_le_bytes(f.len() as u64));
    assert(b.subrange(24 + n, b.len() as int) =~= f);
}

/// Two credentials with the same record are the same credential.
pub proof fn lemma_record_injective(c1: CredentialModel, c2: CredentialModel)
    requires
        record_fits(c1),
        record_bytes(c1) == record_bytes(c2),
    ensures
        c1 == c2,
{
    lemma_auto_spec_u64_to_from_le_bytes();
    lemma_record_layout(c1);
    lemma_record_layout(c2);
    let t1 = encode_utf8(c1.refresh_token);
    let t2 = encode_utf8(c2.refresh_token);
    let f1 = encode_utf8(c1.prior_fingerprint);
    let f2 = encode_utf8(c2.prior_fingerprint);
    assert(spec_u64_from_le_bytes(spec_u64_to_le_bytes(c1.access_token_expiry))
        == c1.access_token_expiry);
    assert(spec_u64_from_le_bytes(spec_u64_to_le_bytes(c2.access_token_expiry))
        == c2.access_token_expiry);
    assert(spec_u64_from_le_bytes(spec_u64_to_le_bytes(t1.len() as u64)) == t1.len() as u64);
    assert(spec_u64_from_le_bytes(spec_u64_to_le_bytes(t2.len() as u64)) == t2.len() as u64);
    assert(t1.len() == t2.len());
    assert(t1 == t2);
    assert(f1 == f2);
    encode_utf8_decode_utf8(c1.refresh_token);
    encode_utf8_decode_utf8(c2.refresh_token);
    encode_utf8_decode_utf8(c1.prior_fingerprint);
    encode_utf8_decode_utf8(c2.prior_fingerprint);
}

/// Relies on std::str::from_utf8: it accepts exactly the byte sequences that
/// are valid UTF-8 and returns a string slice over those same bytes.
#[verifier::external_body]
fn utf8_text<'a>(b: &'a [u8]) -> (r: Option<&'a str>)
    ensures
        r is Some <==> valid_utf8(b@),
        r is Some ==> r->Some_0.spec_bytes() == b@,
{
    std::str::from_utf8(b).ok()
}

/// Appends the bytes of `b` to `out`.
fn push_all(out: &mut Vec<u8>, b: &[u8])
    ensures
        final(out)@ == old(out)@ + b@,
{
    let mut i: usize = 0;
    while i < b.len()
        invariant
            i <= b@.len(),
            out@ == old(out)@ + b@.subrange(0, i as int),
        decreases b@.len() - i,
    {
        out.push(b[i]);
        i = i + 1;
        assert(out@ =~= old(out)@ + b@.subrange(0, i as int));
    }
    assert(b@.subrange(0, i as int) =~= b@);
}

/// The stored form of `c`.
pub fn encode(c: &Credential) -> (r: Vec<u8>)
    requires
        record_fits(c@),
    ensures
        r@ == record_bytes(c@),
{
    let t = c.refresh_token.as_str().as_bytes();
    let f = c.fingerprint_of_prior_refresh_token.as_str().as_bytes();
    let mut out = u64_to_le_bytes(c.access_token_expiry);
    let mut len = u64_to_le_bytes(t.len() as u64);
    out.append(&mut len);
    push_all(&mut out, t);
    let mut len = u64_to_le_bytes(f.len() as u64);
    out.append(&mut len);
    push_all(&mut out, f);
    out
}

/// Reads a credential back from its stored form; `None` when `b` is the stored
/// form of no credential.
pub fn decode(b: &[u8]) -> (r: Option<Credential>)
    ensures
        r is Some <==> is_record(b@),
        r is Some ==> record_bytes(r->Some_0@) == b@ && record_fits(r->Some_0@),
{
    proof {
        lemma_auto_spec_u64_to_from_le_bytes();
    }
    let n = b.len();
    if n < 16 {
        proof {
            lemma_not_record_unless_laid_out(b@);
        }
        return None;
    }
    let expiry = u64_from_le_bytes(slice_subrange(b, 0, 8));
    let token_len = u64_from_le_bytes(slice_subrange(b, 8, 16));
    if token_len > (n - 16) as u64 {
        proof {
            lemma_not_record_unless_laid_out(b@);
        }
        return None;
    }
    let token_end: usize = 16 + token_len as usize;
    let token = match utf8_text(slice_subrange(b, 16, token_end)) {
        Some(s) => s,
        None => {
            proof {
                lemma_not_record_unless_laid_out(b@);
            }
            return None;
        },
    };
    if n - token_end < 8 {
        proof {
            lemma_not_record_unless_laid_out(b@);
        }
        return None;
    }
    let prior_len = u64_from_le_bytes(slice_subrange(b, token_end, token_end + 8));
    if prior_len != (n - token_end - 8) as u64 {
        proof {
            lemma_not_record_unless_laid_out(b@);
        }
        return None;
    }
    let prior = match utf8_text(slice_subrange(b, token_end + 8, n)) {
        Some(s) => s,
        None => {
            proof {
                lemma_not_record_unless_laid_out(b@);
            }
            return None;
        },
    };
    let c = Credential {
        refresh_token: token.to_owned(),
        access_token_expiry: expiry,
        fingerprint_of_prior_refresh_token: prior.to_owned(),
    };
    proof {
        let m = c@;
        encode_utf8_decode_utf8(token@);
        encode_utf8_decode_utf8(prior@);
        assert(record_bytes(m) =~= b@) by {
            assert(b@ =~= b@.subrange(0, 8) + b@.subrange(8, 16) + b@.subrange(16, token_end as int)
                + b@.subrange(token_end as int, token_end + 8) + b@.subrange(
                token_end + 8,
                n as int,
            ));
        }
    }
    Some(c)
}

/// What a record is made of, stated of its bytes: whenever `b` is a record,
/// the credential it holds is laid out in it as `lemma_record_layout` says,
/// and both of its texts are valid UTF-8. Each way `decode` refuses its input
/// contradicts one of these facts.
proof fn lemma_not_record_unless_laid_out(b: Seq<u8>)
    ensures
        is_record(b) ==> {
            let c = choose|c: CredentialModel| record_bytes(c) == b;
            let t = encode_utf8(c.refresh_token);
            let f = encode_utf8(c.prior_fingerprint);
            let n = t.len() as int;
            &&& b.len() == 24 + t.len() + f.len()
            &&& b.subrange(8, 16) == spec_u64_to_le_bytes(t.len() as u64)
            &&& b.subrange(16, 16 + n) == t
            &&& b.subrange(16 + n, 24 + n) == spec_u64_to_le_bytes(f.len() as u64)
            &&& b.subrange(24 + n, b.len() as int) == f
            &&& valid_utf8(t)
            &&& valid_utf8(f)
        },
{
    if is_record(b) {
        let c = choose|c: CredentialModel| record_bytes(c) == b;
        lemma_record_layout(c);
        encode_utf8_valid_utf8(c.refresh_token);
        encode_utf8_valid_utf8(c.prior_fingerprint);
    }
}

} // verus!
