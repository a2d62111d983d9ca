//! The integrity stamp: a keyed one-way hash over a transaction's canonical
//! text. The same secret stamps and checks, so only its holder can do either.

use crate::boundary::{hex_encode, hex_lower, sha256, sha256_digest};
use crate::records::{KeyPair, KeyPairView};
use crate::text::{decimal, push_decimal};
use vstd::prelude::*;
use vstd::string::*;
use vstd::utf8::*;

verus! {

/// The hexadecimal SHA-256 digest of a text's UTF-8 bytes.
pub open spec fn text_digest(text: Seq<char>) -> Seq<char> {
    hex_lower(sha256(encode_utf8(text)))
}

/// The stamp of `data` under `private_key`: the digest of the two joined by `|`.
pub open spec fn stamp(data: Seq<char>, private_key: Seq<char>) -> Seq<char> {
    text_digest(data + seq!['|'] + private_key)
}

/// The text that a send is stamped over: id, sender, receiver, amount in
/// decimal and timestamp, joined by `|`.
pub open spec fn canonical(
    id: Seq<char>,
    sender: Seq<char>,
    receiver: Seq<char>,
    amount: int,
    timestamp: Seq<char>,
) -> Seq<char> {
    id + seq!['|'] + sender + seq!['|'] + receiver + seq!['|'] + decimal(amount as nat) + seq!['|']
        + timestamp
}

/// The private key derived from a seed.
pub open spec fn private_key_of(seed: Seq<char>) -> Seq<char> {
    text_digest(seed)
}

/// The public key derived from a private key.
pub open spec fn public_key_of(private_key: Seq<char>) -> Seq<char> {
    text_digest("pub_"@ + private_key)
}

impl KeyPairView {
    /// The public key is the one derived from the private key.
    pub open spec fn wf(self) -> bool {
        self.public_key == public_key_of(self.private_key)
    }

    /// The pair that a seed gives.
    pub open spec fn from_seed(seed: Seq<char>, created_at: Seq<char>) -> KeyPairView {
        KeyPairView {
            public_key: public_key_of(private_key_of(seed)),
            private_key: private_key_of(seed),
            created_at,
        }
    }
}

/// Hashes a text's UTF-8 bytes with SHA-256 and renders the digest in
/// lower-case hexadecimal.
pub fn sha256_hex(text: &str) -> (out: String)
    ensures
        out@ == text_digest(text@),
{
    let digest = sha256_digest(text.as_bytes());
    hex_encode(digest.as_slice())
}

/// Builds the canonical text of a send.
pub fn canonical_text(id: &str, sender: &str, receiver: &str, amount: u64, timestamp: &str) -> (out:
    String)
    ensures
        out@ == canonical(id@, sender@, receiver@, amount as int, timestamp@),
{
    proof {
        reveal_strlit("|");
    }
    let mut out = String::new();
    out.append(id);
    out.append("|");
    out.append(sender);
    out.append("|");
    out.append(receiver);
    out.append("|");
    push_decimal(&mut out, amount);
    out.append("|");
    out.append(timestamp);
    out
}

/// Stamps `data` with `private_key`.
pub fn stamp_text(data: &str, private_key: &str) -> (out: String)
    ensures
        out@ == stamp(data@, private_key@),
{
    proof {
        reveal_strlit("|");
    }
    let mut combined = String::new();
    combined.append(data);
    combined.append("|");
    combined.append(private_key);
    assert(combined@ =~= data@ + seq!['|'] + private_key@);
    sha256_hex(combined.as_str())
}

impl KeyPair {
    /// Derives a key pair from a seed: the private key is the digest of the
    /// seed, the public key the digest of `pub_` followed by the private key.
    pub fn from_seed(seed: &str, created_at: String) -> (out: KeyPair)
        ensures
            out@ == KeyPairView::from_seed(seed@, created_at@),
            out@.wf(),
    {
        let private_key = sha256_hex(seed);
        let mut tagged = String::new();
        tagged.append("pub_");
        tagged.append(private_key.as_str());
        assert(tagged@ =~= "pub_"@ + private_key@);
        let public_key = sha256_hex(tagged.as_str());
        KeyPair { public_key, private_key, created_at }
    }
}

} // verus!
