use roctokit::clients::{Credentials, GitHubClient, GitHubClientBuilder};

const EXPECTED_ORG_NAME: &str = "silentec";

fn get_unauthenticated_client() -> GitHubClient {
    let mut builder = GitHubClientBuilder::new();
    builder.for_user_agent(EXPECTED_ORG_NAME).build()
}

fn get_basic_auth_client() -> GitHubClient {
    let mut builder = GitHubClientBuilder::new();
    builder
        .for_user_agent(EXPECTED_ORG_NAME)
        .with_basic_auth("username", "password")
        .build()
}

fn get_token_auth_client() -> GitHubClient {
    let mut builder = GitHubClientBuilder::new();
    builder
        .for_user_agent(EXPECTED_ORG_NAME)
        .with_bearer_token("token goes here")
        .build()
}

fn get_unauthenticated_client_with_timeout() -> GitHubClient {
    let mut builder = GitHubClientBuilder::new();
    builder
        .with_timeout(60)
        .for_user_agent(EXPECTED_ORG_NAME)
        .build()
}

#[test]
fn it_can_be_configured_with_basic_auth() {
    let client = get_basic_auth_client();
    match client.organizations.options.credentials() {
        Credentials::Basic { username, password } => {
            assert_eq!(username, "username");
            assert_eq!(password, "password");
        }
        _ => panic!("basic credentials expected"),
    }
    assert_eq!(client.organizations.options.authorization(), None);
    assert_eq!(client.repositories.options.user_agent(), EXPECTED_ORG_NAME);
}

#[test]
fn it_can_be_configured_with_token_auth() {
    let client = get_token_auth_client();
    assert_eq!(
        client.organizations.options.authorization(),
        Some("Bearer token goes here".to_string())
    );
    assert_eq!(
        client.repositories.options.authorization(),
        Some("Bearer token goes here".to_string())
    );
}

#[test]
fn it_can_be_configured_with_timeout() {
    let client = get_unauthenticated_client_with_timeout();
    assert_eq!(client.organizations.options.timeout_in_secs(), 60);
    assert_eq!(client.repositories.options.timeout_in_secs(), 60);
    assert_eq!(client.organizations.options.user_agent(), EXPECTED_ORG_NAME);
}

#[test]
fn an_unconfigured_client_waits_ten_seconds_and_is_anonymous() {
    let client = get_unauthenticated_client();
    assert_eq!(client.organizations.options.timeout_in_secs(), 10);
    assert_eq!(client.organizations.options.authorization(), None);
    assert!(matches!(
        client.organizations.options.credentials(),
        Credentials::Anonymous
    ));
    let bare = GitHubClientBuilder::new().build();
    assert_eq!(bare.repositories.options.user_agent(), "");
}

#[test]
fn an_oauth_token_is_sent_under_the_token_scheme() {
    let mut builder = GitHubClientBuilder::new();
    let client = builder
        .for_user_agent("roctokit")
        .with_oauth_token("abc123")
        .build();
    assert_eq!(
        client.organizations.options.authorization(),
        Some("token abc123".to_string())
    );
}

#[test]
fn the_last_setting_of_a_kind_wins() {
    let mut builder = GitHubClientBuilder::new();
    builder.with_timeout(5).with_timeout(20);
    builder.with_oauth_token("first").with_bearer_token("second");
    builder.for_user_agent("a").for_user_agent("b");
    let client = builder.build();
    assert_eq!(client.organizations.options.timeout_in_secs(), 20);
    assert_eq!(client.organizations.options.user_agent(), "b");
    assert_eq!(
        client.organizations.options.authorization(),
        Some("Bearer second".to_string())
    );
}
