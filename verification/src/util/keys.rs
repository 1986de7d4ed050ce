//! Signing keys: reading PGP and OpenSSH public keys and writing them back.
use vstd::prelude::*;
use pgp::Deserializable;
use crate::util::text::str_eq;

verus! {

#[verifier::external_type_specification]
#[verifier::external_body]
pub struct ExSignedPublicKey(pgp::SignedPublicKey);

#[verifier::external_type_specification]
#[verifier::external_body]
pub struct ExSshPublicKey(ssh_key::PublicKey);

#[verifier::external_type_specification]
#[verifier::external_body]
pub struct ExPgpError(pgp::errors::Error);

#[verifier::external_type_specification]
#[verifier::external_body]
pub struct ExSshError(ssh_key::Error);

/// A public signing key.
pub enum SigningKeyBody {
    PGP(pgp::SignedPublicKey),
    SSH(ssh_key::PublicKey),
}

/// Why a signing key could not be read or written.
pub enum KeyError {
    /// The PGP key could not be read or written.
    Pgp(pgp::errors::Error),
    /// The SSH key could not be read or written.
    SshKey(ssh_key::Error),
    /// A key type other than `pgp` and `openssh`.
    UnknownKeyType(String),
}

/// Whether the text is an OpenSSH public key that reads.
pub uninterp spec fn openssh_key_reads(text: Seq<char>) -> bool;

/// Reads one ASCII-armored PGP public key from the bytes of the text `pgp`,
/// the only bytes this library reads a PGP key from.
/// Trusted: calls `pgp::SignedPublicKey::from_armor_single`, which reads the
/// armor header once (`from_armor_many` then `Dearmor::read_header`): its
/// streaming parser looks for the `-----` of an armor header line, finds
/// none in these three bytes, reports an incomplete parse, and the call
/// returns that as an error. The contract claims that it fails here.
#[verifier::external_body]
fn pgp_key_from_armor(bytes: &[u8]) -> (r: Result<pgp::SignedPublicKey, pgp::errors::Error>)
    requires
        bytes@ == vstd::utf8::encode_utf8("pgp"@),
    ensures
        r is Err,
{
    match pgp::SignedPublicKey::from_armor_single(std::io::Cursor::new(bytes)) {
        Ok((key, _headers)) => Ok(key),
        Err(e) => Err(e),
    }
}

/// The OpenSSH line that the key read from the text is written as, or `None`
/// where writing it fails.
pub uninterp spec fn openssh_key_line(text: Seq<char>) -> Option<Seq<char>>;

/// The comment of the OpenSSH key read from the text.
pub uninterp spec fn openssh_comment(text: Seq<char>) -> Seq<char>;

/// Reads an OpenSSH public key.
/// Trusted: calls `ssh_key::PublicKey::from_openssh`; the contract claims
/// that it reads exactly when the text is such a key, and that the key read,
/// a function of the text, writes back as `openssh_key_line` and has the
/// comment `openssh_comment`.
#[verifier::external_body]
fn ssh_key_from_openssh(text: &str) -> (r: Result<ssh_key::PublicKey, ssh_key::Error>)
    ensures
        r is Ok <==> openssh_key_reads(text@),
        r matches Ok(k) ==> openssh_text(k) == openssh_key_line(text@),
        r matches Ok(k) ==> ssh_key_comment(k) == openssh_comment(text@),
{
    ssh_key::PublicKey::from_openssh(text)
}

/// How many direct signatures a PGP key carries.
pub uninterp spec fn pgp_direct_signature_count(key: pgp::SignedPublicKey) -> nat;

/// The comment of an SSH key.
pub uninterp spec fn ssh_key_comment(key: ssh_key::PublicKey) -> Seq<char>;

/// The ASCII armor (without headers) that a PGP key is written as, or `None`
/// where writing it fails.
pub uninterp spec fn pgp_armored_text(key: pgp::SignedPublicKey) -> Option<Seq<char>>;

/// The OpenSSH line that an SSH key is written as, or `None` where writing it
/// fails.
pub uninterp spec fn openssh_text(key: ssh_key::PublicKey) -> Option<Seq<char>>;

/// Drops the direct signatures of a PGP key.
/// Trusted: sets the `details.direct_signatures` field of the key to an empty
/// list, so the key then carries none; what else the key holds is not
/// stated, as the key is opaque here.
#[verifier::external_body]
fn pgp_clear_direct_signatures(key: &mut pgp::SignedPublicKey)
    ensures
        pgp_direct_signature_count(*final(key)) == 0,
{
    key.details.direct_signatures = vec![];
}

/// Clears the comment of an SSH key.
/// Trusted: calls `ssh_key::PublicKey::set_comment` with the empty string,
/// which stores it as the comment that `comment()` gives back; what else the
/// key holds is not stated, as the key is opaque here.
#[verifier::external_body]
fn ssh_clear_comment(key: &mut ssh_key::PublicKey)
    ensures
        ssh_key_comment(*final(key)) == Seq::<char>::empty(),
{
    key.set_comment("");
}

/// Writes a PGP key in ASCII armor without headers.
/// Trusted: calls `pgp::SignedPublicKey::to_armored_string(None)`; the text
/// (or the failure) is a function of the key alone and is named.
#[verifier::external_body]
fn pgp_to_armored(key: &pgp::SignedPublicKey) -> (r: Result<String, pgp::errors::Error>)
    ensures
        match r {
            Ok(t) => pgp_armored_text(*key) == Some(t@),
            Err(_) => pgp_armored_text(*key) is None,
        },
{
    key.to_armored_string(None)
}

/// Writes an SSH key in the OpenSSH format.
/// Trusted: calls `ssh_key::PublicKey::to_openssh`; the text (or the
/// failure) is a function of the key alone and is named.
#[verifier::external_body]
fn ssh_to_openssh(key: &ssh_key::PublicKey) -> (r: Result<String, ssh_key::Error>)
    ensures
        match r {
            Ok(t) => openssh_text(*key) == Some(t@),
            Err(_) => openssh_text(*key) is None,
        },
{
    key.to_openssh()
}

impl SigningKeyBody {
    /// Reads a key of the given type: `pgp` reads an armored PGP key from the
    /// bytes of the key type text itself, which hold none, so it always fails;
    /// `openssh` reads the body as an OpenSSH key; other types are refused.
    pub fn parse(key_type: &str, body: &str) -> (r: Result<SigningKeyBody, KeyError>)
        ensures
            key_type@ == "pgp"@ ==> r matches Err(KeyError::Pgp(_)),
            key_type@ == "openssh"@ ==> match r {
                Ok(k) => k is SSH,
                Err(e) => e is SshKey,
            },
            key_type@ == "openssh"@ ==> (r is Ok <==> openssh_key_reads(body@)),
            key_type@ == "openssh"@ ==> (r matches Ok(SigningKeyBody::SSH(k)) ==> (
                openssh_text(k) == openssh_key_line(body@) && ssh_key_comment(k) == openssh_comment(body@))),
            key_type@ != "pgp"@ && key_type@ != "openssh"@ ==> (r matches Err(KeyError::UnknownKeyType(t)) && t@ == key_type@),
    {
        proof {
            reveal_strlit("pgp");
            reveal_strlit("openssh");
            assert("pgp"@.len() != "openssh"@.len());
        }
        if str_eq(key_type, "pgp") {
            match pgp_key_from_armor(key_type.as_bytes()) {
                Ok(key) => Ok(SigningKeyBody::PGP(key)),
                Err(e) => Err(KeyError::Pgp(e)),
            }
        } else if str_eq(key_type, "openssh") {
            match ssh_key_from_openssh(body) {
                Ok(key) => Ok(SigningKeyBody::SSH(key)),
                Err(e) => Err(KeyError::SshKey(e)),
            }
        } else {
            Err(KeyError::UnknownKeyType(key_type.to_owned()))
        }
    }

    /// Removes what identifies the key's owner beyond the key: the direct
    /// signatures of a PGP key, the comment of an SSH key. The kind of key stays.
    pub fn scrub(&mut self)
        ensures
            (*old(self) is PGP) == (*final(self) is PGP),
            (*old(self) is SSH) == (*final(self) is SSH),
            *final(self) matches SigningKeyBody::PGP(k) ==> pgp_direct_signature_count(k) == 0,
            *final(self) matches SigningKeyBody::SSH(k) ==> ssh_key_comment(k) == Seq::<char>::empty(),
    {
        match self {
            SigningKeyBody::PGP(key) => pgp_clear_direct_signatures(key),
            SigningKeyBody::SSH(key) => ssh_clear_comment(key),
        }
    }

    /// The key type's name: `pgp` or `openssh`.
    pub fn type_str(&self) -> (r: &'static str)
        ensures
            *self is PGP ==> r@ == "pgp"@,
            *self is SSH ==> r@ == "openssh"@,
    {
        match self {
            SigningKeyBody::PGP(..) => "pgp",
            SigningKeyBody::SSH(..) => "openssh",
        }
    }

    /// The key in its text form: ASCII armor for PGP, the OpenSSH line for SSH;
    /// a key that cannot be written gives its library's error.
    pub fn to_body(&self) -> (r: Result<String, KeyError>)
        ensures
            match *self {
                SigningKeyBody::PGP(k) => match pgp_armored_text(k) {
                    Some(t) => r matches Ok(s) && s@ == t,
                    None => r matches Err(KeyError::Pgp(_)),
                },
                SigningKeyBody::SSH(k) => match openssh_text(k) {
                    Some(t) => r matches Ok(s) && s@ == t,
                    None => r matches Err(KeyError::SshKey(_)),
                },
            },
    {
        match self {
            SigningKeyBody::PGP(key) => match pgp_to_armored(key) {
                Ok(s) => Ok(s),
                Err(e) => Err(KeyError::Pgp(e)),
            },
            SigningKeyBody::SSH(key) => match ssh_to_openssh(key) {
                Ok(s) => Ok(s),
                Err(e) => Err(KeyError::SshKey(e)),
            },
        }
    }
}

} // verus!
