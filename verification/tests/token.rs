use file_center_download::token::{TokenOutcome, id_token_step};

use mongo_file_center::FileCenterError;
use mongo_file_center::bson::oid::ObjectId;

#[test]
fn valid_decryption_proceeds_with_same_id() {
    let id = ObjectId::from_bytes([1, 2, 3, 4, 5, 6, 7, 8, 9, 10, 11, 12]);
    match id_token_step(Ok(id)) {
        TokenOutcome::Proceed(p) => assert_eq!(p, id),
        TokenOutcome::RejectToken(_) => panic!("a decrypted id must proceed to the lookup"),
    }
}

#[test]
fn invalid_token_is_rejected_before_any_lookup() {
    let outcome = id_token_step(Err(FileCenterError::IDTokenError("not a valid token")));
    match outcome {
        TokenOutcome::RejectToken(FileCenterError::IDTokenError(message)) => {
            assert_eq!(message, "not a valid token");
        },
        TokenOutcome::RejectToken(_) => panic!("the token error must be surfaced unchanged"),
        TokenOutcome::Proceed(_) => panic!("a rejected token must not reach the lookup"),
    }
}
