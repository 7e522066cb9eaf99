use vstd::prelude::*;

use crate::error::BuildError;

verus! {

// Finalizing the container may sign it.  The signing identity is built
// from PEM-encoded key-and-certificate text by the container-writer
// library and is opaque here: it is produced from the text and handed on
// to the finalize step unread.

/// The outside signing-identity type, declared so values of it can pass
/// through verified signatures.
#[verifier::external_type_specification]
#[verifier::external_body]
pub struct ExSigner(apk::Signer);

/// Whether a PEM-encoded key-and-certificate text parses into a signing
/// identity.
pub uninterp spec fn spec_signer_parses(pem: Seq<char>) -> bool;

/// Relies on `apk::Signer::new` (re-exported there from its companion
/// crate): whether the PEM text parses is a function of the text alone;
/// a failure's message is handed back as text.
#[verifier::external_body]
fn signer_from_pem(pem: &String) -> (r: Result<apk::Signer, String>)
    ensures
        r is Ok <==> spec_signer_parses(pem@),
{
    apk::Signer::new(pem).map_err(|e| format!("{}", e))
}

/// Builds the signing identity from PEM text: exactly the texts that
/// parse yield one, and a rejection carries the parser's message.
pub fn load_signer(pem: &String) -> (r: Result<apk::Signer, BuildError>)
    ensures
        match r {
            Ok(_) => spec_signer_parses(pem@),
            Err(e) => !spec_signer_parses(pem@) && e is InvalidSigningKey,
        },
{
    match signer_from_pem(pem) {
        Ok(s) => Ok(s),
        Err(m) => Err(BuildError::InvalidSigningKey(m)),
    }
}

} // verus!
