pub mod hashmap_user_store;
pub mod hashset_banned_token_store;

pub use hashmap_user_store::HashmapUserStore;
pub use hashset_banned_token_store::HashSetBannedTokenStore;
