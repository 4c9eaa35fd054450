use ledger_gateway::envelope::{error, respond, success, Envelope, STATUS_BAD_REQUEST, STATUS_OK};
use ledger_gateway::error::{ApiError, EncodedField, KeyField, Operation};

#[test]
fn success_wraps_the_data() {
    let envelope = success(7u32);
    assert_eq!(envelope, Envelope::Success { data: 7 });
    assert!(envelope.is_success());
    assert_eq!(envelope.status(), 200);
    assert_eq!(STATUS_OK, 200);
}

#[test]
fn error_wraps_the_text() {
    let envelope: Envelope<u32> = error("Missing required fields");
    assert_eq!(envelope, Envelope::Failure { error: "Missing required fields".to_string() });
    assert!(!envelope.is_success());
    assert_eq!(envelope.status(), 400);
    assert_eq!(STATUS_BAD_REQUEST, 400);
}

#[test]
fn respond_wraps_either_outcome() {
    assert_eq!(respond(Ok("data")), Envelope::Success { data: "data" });
    let failed: Result<u8, ApiError> = Err(ApiError::InvalidAmount);
    assert_eq!(
        respond(failed),
        Envelope::Failure { error: "Lamports must be greater than 0".to_string() }
    );
}

#[test]
fn every_error_has_its_text() {
    let cases = [
        (ApiError::MissingField, "Missing required fields"),
        (ApiError::InvalidEncoding(EncodedField::Secret), "Invalid base58 secret key"),
        (ApiError::InvalidEncoding(EncodedField::Signature), "Invalid base64 signature"),
        (ApiError::InvalidLength(EncodedField::Secret), "Secret key must be 64 bytes long"),
        (ApiError::InvalidLength(EncodedField::Signature), "Invalid signature format"),
        (ApiError::InvalidKeyMaterial, "Invalid keypair bytes"),
        (ApiError::InvalidPubkey(KeyField::Mint), "Invalid mint pubkey"),
        (ApiError::InvalidPubkey(KeyField::MintAuthority), "Invalid mint authority pubkey"),
        (ApiError::InvalidPubkey(KeyField::Destination), "Invalid destination pubkey"),
        (ApiError::InvalidPubkey(KeyField::Authority), "Invalid authority pubkey"),
        (ApiError::InvalidPubkey(KeyField::PublicKey), "Invalid public key"),
        (ApiError::InvalidPubkey(KeyField::Sender), "Invalid sender address"),
        (ApiError::InvalidPubkey(KeyField::Recipient), "Invalid recipient address"),
        (ApiError::InvalidAmount, "Lamports must be greater than 0"),
        (
            ApiError::InstructionBuildFailed(Operation::CreateMint, "why".to_string()),
            "Failed to build instruction: why",
        ),
        (
            ApiError::InstructionBuildFailed(Operation::MintTo, "why".to_string()),
            "Failed to create mint instruction: why",
        ),
    ];
    for (error, text) in cases {
        assert_eq!(error.message(), text);
        let wrapped: Envelope<()> = respond(Err(error));
        assert_eq!(wrapped.status(), 400);
    }
}

#[test]
fn field_and_operation_texts() {
    assert_eq!(KeyField::Sender.message(), "Invalid sender address");
    assert_eq!(Operation::CreateMint.prefix(), "Failed to build instruction: ");
    assert_eq!(Operation::MintTo.prefix(), "Failed to create mint instruction: ");
}
