//! Tests for the OAuth2 client and the authorization-URL builders.

use discord_core::oauth2::authorization_url::ResponseType;
use discord_core::oauth2::client::{Client, CreateClientError};
use discord_core::oauth2::scope::Scope;
use url::ParseError;

#[test]
fn test_client_create() {
    let uris = vec![String::from("https://example.com")];
    let client = Client::new(1, String::from("a"), &uris).unwrap();

    assert_eq!(1, client.client_id());
    assert_eq!("a", client.client_secret());
    let normalized: Vec<&str> = client.redirect_uris().iter().map(AsRef::as_ref).collect();
    assert_eq!(["https://example.com/"], normalized.as_slice());
}

#[test]
fn test_client_create_redirect_uri_invalid() {
    let uris = vec![String::from("b")];
    let actual = Client::new(1, String::from("a"), &uris).unwrap_err();

    assert!(matches!(actual, CreateClientError::RedirectUriInvalid {
        source,
        uri,
    } if source == ParseError::RelativeUrlWithoutBase && uri == "b"));
}

#[test]
fn test_bot_authorization_url() {
    let uris = vec![String::from("https://example.com/")];
    let client = Client::new(1, String::from("a"), &uris).unwrap();
    let mut builder = client.bot_authorization_url();
    let expected = "https://discord.com/api/oauth2/authorize?client_id=1&scope=bot";
    assert_eq!(expected, builder.build());

    let perms: u64 = (1 << 11) | (1 << 13);
    builder.permissions(perms);
    let expected = format!(
        "https://discord.com/api/oauth2/authorize?\
        client_id=1\
        &permissions={}\
        &scope=bot",
        perms
    );
    assert_eq!(expected, builder.build());

    builder.guild_id(2);
    let expected = format!(
        "https://discord.com/api/oauth2/authorize?\
        client_id=1\
        &guild_id=2\
        &permissions={}\
        &scope=bot",
        perms
    );
    assert_eq!(expected, builder.build());

    builder.disable_guild_select(true);
    let expected = format!(
        "https://discord.com/api/oauth2/authorize?\
        client_id=1\
        &disable_guild_select=true\
        &guild_id=2\
        &permissions={}\
        &scope=bot",
        perms
    );
    assert_eq!(expected, builder.build());

    builder.redirect_uri("https://example.com").unwrap();
    let expected = format!(
        "https://discord.com/api/oauth2/authorize?\
        client_id=1\
        &disable_guild_select=true\
        &guild_id=2\
        &permissions={}\
        &redirect_uri=https%3A%2F%2Fexample.com%2F\
        &scope=bot",
        perms
    );
    assert_eq!(expected, builder.build());

    builder.scopes(vec![Scope::Bot, Scope::GuildsJoin]);
    let expected = format!(
        "https://discord.com/api/oauth2/authorize?\
        client_id=1\
        &disable_guild_select=true\
        &guild_id=2\
        &permissions={}\
        &redirect_uri=https%3A%2F%2Fexample.com%2F\
        &scope=bot%20guilds.join",
        perms
    );
    assert_eq!(expected, builder.build());
}

#[test]
fn test_implicit_grant() {
    let uris = vec![String::from("https://example.com/")];
    let client = Client::new(1, String::from("a"), &uris).unwrap();
    let builder = client.authorization_url("https://example.com/").unwrap();
    let expected = "https://discord.com/api/oauth2/authorize?\
        response_type=token\
        &client_id=1\
        &redirect_uri=https%3A%2F%2Fexample.com%2F";
    assert_eq!(expected, builder.implicit_grant());
}

#[test]
fn test_webhook() {
    let uris = vec![String::from("https://example.com/")];
    let client = Client::new(1, String::from("a"), &uris).unwrap();
    let mut builder = client.authorization_url("https://example.com/").unwrap();
    let expected = "https://discord.com/api/oauth2/authorize?\
        response_type=code\
        &client_id=1\
        &scope=webhook.incoming\
        &redirect_uri=https%3A%2F%2Fexample.com%2F";
    assert_eq!(expected, builder.webhook());
}

#[test]
fn redirect_uri_unconfigured() {
    let uris = vec![String::from("https://example.com/")];
    let client = Client::new(1, String::from("a"), &uris).unwrap();
    let err = client.authorization_url("https://other.example/").unwrap_err();
    assert!(matches!(
        err,
        discord_core::oauth2::client::RedirectUriInvalidError::Unconfigured { .. }
    ));
}

#[test]
fn scope_names() {
    assert_eq!("bot", Scope::Bot.name());
    assert_eq!("guilds.join", Scope::GuildsJoin.name());
    assert_eq!("webhook.incoming", Scope::WebhookIncoming.name());
}

#[test]
fn response_type_name() {
    assert_eq!("code", ResponseType::Code.name());
    assert_eq!("token", ResponseType::Token.name());
}
