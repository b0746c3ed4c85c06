use trading_vault::VaultError;

fn all() -> Vec<(VaultError, &'static str)> {
    vec![
        (VaultError::Unauthorized, "Unauthorized"),
        (VaultError::InvalidInput, "Invalid input"),
        (VaultError::InvalidToken, "Invalid token"),
        (VaultError::InvalidRouter, "Invalid router"),
        (VaultError::TooManyTokens, "Too many tokens"),
        (VaultError::TokenNotAllowed, "Token not allowed"),
        (VaultError::TokenAlreadyAllowed, "Token already allowed"),
        (VaultError::BadAccount, "Bad account"),
        (VaultError::Slippage, "Slippage"),
        (VaultError::Math, "Math"),
        (VaultError::InsufficientBalance, "Insufficient balance"),
        (VaultError::TokenAccountNotEmpty, "Token account is not empty"),
        (VaultError::VaultNotReadyToClose, "Vault is not ready to close"),
    ]
}

#[test]
fn errors_are_numbered_in_order() {
    for (i, (error, _)) in all().iter().enumerate() {
        assert_eq!(error.code(), 6000 + i as u32);
    }
}

#[test]
fn errors_have_their_texts() {
    for (error, text) in all() {
        assert_eq!(error.message(), text);
    }
}
