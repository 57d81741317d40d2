use rs_fast_mcp::server::auth::providers::discord::DiscordProvider;

#[test]
fn test_discord_provider_default() {
    let p = DiscordProvider::new();
    assert!(p.required_guild_id.is_none());
}

#[test]
fn test_discord_provider_with_guild() {
    let p = DiscordProvider::new().with_guild("123456789");
    assert_eq!(p.required_guild_id.as_deref(), Some("123456789"));
}
