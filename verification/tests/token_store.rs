use auth_service::domain::{BannedTokenStore, TokenStoreError};
use auth_service::services::HashSetBannedTokenStore;

#[test]
fn test_ban_token_twice() {
    let mut store = HashSetBannedTokenStore::new();
    assert_eq!(store.is_token_banned("tok"), Ok(false));
    assert_eq!(store.ban_token("tok"), Ok(()));
    assert_eq!(store.is_token_banned("tok"), Ok(true));
    assert_eq!(
        store.ban_token("tok"),
        Err(TokenStoreError::TokenAlreadyBanned)
    );
    assert_eq!(store.is_token_banned("tok"), Ok(true));
}

#[test]
fn test_ban_is_per_token() {
    let mut store = HashSetBannedTokenStore::new();
    assert_eq!(store.ban_token("one"), Ok(()));
    assert_eq!(store.is_token_banned("one"), Ok(true));
    assert_eq!(store.is_token_banned("two"), Ok(false));
    assert_eq!(store.ban_token("two"), Ok(()));
    assert_eq!(store.is_token_banned("one"), Ok(true));
    assert_eq!(store.is_token_banned("two"), Ok(true));
}
