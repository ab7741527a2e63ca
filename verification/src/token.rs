//! The id-token step of a lookup: an opaque, encrypted token is decrypted
//! and validated by the storage collaborator before any lookup by
//! identifier may happen. A rejected token surfaces the collaborator's
//! error unchanged and yields no identifier, so no lookup can follow it.

use vstd::prelude::*;

use mongo_file_center::FileCenter;
use mongo_file_center::FileCenterError;
use mongo_file_center::bson::oid::ObjectId;

verus! {

/// Declares `mongo_file_center::FileCenter`, the storage collaborator's
/// client, as an opaque type: only its token decryption is called here.
#[verifier::external_type_specification]
#[verifier::external_body]
pub struct ExFileCenter(FileCenter);

/// Declares `mongo_file_center::FileCenterError`, the collaborator's error
/// type, as an opaque type; it is carried through unchanged, never read.
#[verifier::external_type_specification]
#[verifier::external_body]
pub struct ExFileCenterError(FileCenterError);

/// Declares `bson::oid::ObjectId`, the backend-internal file identifier,
/// as an opaque type; it is carried through unchanged, never read.
#[verifier::external_type_specification]
#[verifier::external_body]
pub struct ExObjectId(ObjectId);

/// Relies on `FileCenter::decrypt_id_token`: it decrypts and validates an
/// opaque id token with the center's own key, returning the file's
/// identifier, or the center's token error when the token is malformed or
/// was encrypted under another key. Which of the two comes back depends on
/// that key, so nothing is assumed of the outcome.
#[verifier::external_body]
fn decrypt_token(file_center: &FileCenter, id_token: &str) -> (r: Result<
    ObjectId,
    FileCenterError,
>) {
    file_center.decrypt_id_token(id_token)
}

/// What the token step decides.
pub enum TokenOutcome {
    /// The token was valid: the lookup may go on with this identifier.
    Proceed(ObjectId),
    /// The token was rejected: this error is surfaced unchanged. The
    /// outcome carries no identifier, so no lookup can follow it.
    RejectToken(FileCenterError),
}

/// Decide from a decryption outcome whether the lookup goes on: a
/// decrypted identifier is passed through, and a rejected token becomes
/// `RejectToken` carrying the collaborator's error unchanged.
pub fn id_token_step(decrypted: Result<ObjectId, FileCenterError>) -> (r: TokenOutcome)
    ensures
        (decrypted matches Ok(id) ==> (r matches TokenOutcome::Proceed(p) && p == id)),
        (decrypted matches Err(e) ==> (r matches TokenOutcome::RejectToken(f) && f == e)),
{
    match decrypted {
        Ok(id) => TokenOutcome::Proceed(id),
        Err(e) => TokenOutcome::RejectToken(e),
    }
}

/// Decrypt and validate an id token against the given file center. The
/// decision on the outcome is `id_token_step`'s; what the decryption
/// itself returns rests with the collaborator.
pub fn resolve_id_token(file_center: &FileCenter, id_token: &str) -> TokenOutcome {
    id_token_step(decrypt_token(file_center, id_token))
}

} // verus!
