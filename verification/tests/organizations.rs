use roctokit::clients::organizations::{Organization, OrganizationSummary};
use roctokit::clients::{get_root_url, GitHubClient, GitHubClientBuilder, RootDocument};
use roctokit::fetch::{decoded, received, FetchError, Response};
use roctokit::paginator::{Page, Paginator};

const USER_AGENT: &str = "roctokit";

/// One page that the server holds: the URL it answers at, the value of its
/// `Link` header and its items, already decoded.
struct Held<T> {
    url: String,
    link: Option<String>,
    items: Vec<T>,
}

/// Runs a session against the pages held, as a transport would: every
/// request is answered by the page at that URL, or with 404.
fn collect<T: Clone>(mut session: Paginator<T>, held: &[Held<T>]) -> (Result<Vec<T>, FetchError>, Vec<String>) {
    let mut requested = Vec::new();
    while let Some(url) = session.request() {
        assert!(requested.len() < 1000, "the session does not end");
        requested.push(url.clone());
        let found = held.iter().find(|page| page.url == url);
        let outcome = Ok(Response {
            status: if found.is_some() { 200 } else { 404 },
            link: found.and_then(|page| page.link.clone()),
            body: Vec::new(),
        });
        let answer = match (received(outcome), found) {
            (Ok(response), Some(page)) => Page::from_answer(&response, Ok(page.items.clone())),
            (Ok(_), None) => unreachable!(),
            (Err(error), _) => Err(error),
        };
        session.next(answer);
    }
    (session.finish(), requested)
}

fn next_link(url: &str) -> Option<String> {
    Some(format!("<{}>; rel=\"next\"", url))
}

fn get_token_auth_client() -> GitHubClient {
    let mut builder = GitHubClientBuilder::new();
    builder.for_user_agent(USER_AGENT);
    builder.with_oauth_token("token goes here").build()
}

fn root() -> RootDocument {
    let mut root = RootDocument::new();
    root.organization_url = Some("https://api.github.com/orgs/{org}".to_string());
    root.user_organizations_url = Some("https://api.github.com/user/orgs".to_string());
    root
}

fn organization(login: &str, name: &str, id: u64, description: &str, url: &str) -> Organization {
    Organization {
        login: login.to_string(),
        id: id,
        node_id: String::new(),
        url: url.to_string(),
        repos_url: String::new(),
        events_url: String::new(),
        hooks_url: String::new(),
        issues_url: String::new(),
        members_url: String::new(),
        public_members_url: String::new(),
        avatar_url: String::new(),
        description: description.to_string(),
        name: name.to_string(),
        company: None,
        blog: None,
        location: None,
        email: None,
        is_verified: false,
        has_organization_projects: false,
        has_repository_projects: false,
        public_repos: 0,
        public_gists: 0,
        followers: None,
        following: None,
        html_url: String::new(),
        created_at: String::new(),
        updated_at: String::new(),
        kind: String::new(),
        total_private_repos: None,
        owned_private_repos: None,
        private_gists: None,
        disk_usage: None,
        collaborators: None,
        billing_email: None,
        default_repository_permission: None,
        members_can_create_repositories: None,
        two_factor_requirement_enabled: None,
        plan: None,
    }
}

fn summary(id: u64) -> OrganizationSummary {
    OrganizationSummary {
        login: format!("org{}", id),
        id: id,
        node_id: format!("node{}", id),
        url: format!("https://api.github.com/orgs/org{}", id),
        repos_url: None,
        events_url: None,
        hooks_url: None,
        issues_url: None,
        members_url: None,
        public_members_url: None,
        avatar_url: None,
        description: None,
    }
}

/// The organizations that the server lists, thirty to a page, each page
/// at the URL that the page before it names.
fn listed(total: u64, first: &str) -> Vec<Held<OrganizationSummary>> {
    let mut held = Vec::new();
    let mut from = 0;
    let mut url = first.to_string();
    while from < total {
        let to = (from + 30).min(total);
        let next = format!("https://api.github.com/organizations?since={}", to);
        held.push(Held {
            url,
            link: if to < total { next_link(&next) } else { None },
            items: (from..to).map(summary).collect(),
        });
        url = next;
        from = to;
    }
    held
}

/// Looks an organization up as a caller does: ask the client for the route,
/// take the answer for that route, decode it.
fn get_organization(name: &str, served: Organization) -> Organization {
    let client = get_token_auth_client();
    let lookup = client.organizations.get_by_name(&root(), name).expect("a template for organizations");
    assert_eq!(lookup.route(), served.url);
    received(Ok(Response { status: 200, link: None, body: Vec::new() })).expect("a good answer");
    decoded(Ok(served)).expect("a decoded organization")
}

#[test]
fn e2e_readonly_tests_it_finds_organizations_token_auth() {
    let organization_result = get_organization(
        "github",
        organization("github", "GitHub", 9919, "How people build software.", "https://api.github.com/orgs/github"),
    );
    assert_eq!(organization_result.to_string(), "org: GitHub 9919 How people build software. https://api.github.com/orgs/github");
}

#[test]
fn organization_tests_it_finds_organizations_token_auth() {
    let organization_result = get_organization(
        "silentec",
        organization("silentec", "silentec", 24204496, "", "https://api.github.com/orgs/silentec"),
    );
    assert_eq!(organization_result.to_string(), "org: silentec 24204496  https://api.github.com/orgs/silentec");
}

fn all_organizations_for_a_user() -> Vec<OrganizationSummary> {
    let client = get_token_auth_client();
    let lookup = client.organizations.get_all_for_user(&root()).expect("a URL for the organizations of the user");
    assert_eq!(lookup.route(), "https://api.github.com/user/orgs");
    decoded(Ok(vec![summary(1), summary(2)])).expect("a decoded list")
}

#[test]
fn e2e_readonly_tests_it_retrieves_all_organizations_for_a_user() {
    let users_orgs = all_organizations_for_a_user();
    assert!(users_orgs.len() > 0);
}

#[test]
fn organization_tests_it_retrieves_all_organizations_for_a_user() {
    let users_orgs = all_organizations_for_a_user();
    assert!(users_orgs.len() > 0);
}

#[test]
fn e2e_readonly_tests_it_retrieves_first_100_organizations() {
    let client = get_token_auth_client();
    let held = listed(500, "https://api.github.com/organizations?since=1");
    let (orgs, _) = collect(client.organizations.top(), &held);
    assert_eq!(orgs.unwrap().len(), 100);
}

#[test]
fn organization_tests_it_retrieves_first_100_organizations() {
    let client = get_token_auth_client();
    let held = listed(500, "https://api.github.com/organizations?since=1");
    let (orgs, requested) = collect(client.organizations.top(), &held);
    let orgs = orgs.unwrap();
    assert_eq!(orgs.len(), 100);
    assert_eq!(orgs.iter().map(|org| org.id).collect::<Vec<u64>>(), (0..100).collect::<Vec<u64>>());
    assert_eq!(requested.len(), 4);
}

#[test]
fn e2e_readonly_tests_it_retrieves_a_number_of_organizations() {
    let client = get_token_auth_client();
    let held = listed(500, "https://api.github.com/organizations?since=1");
    let (orgs, _) = collect(client.organizations.some(1, 42), &held);
    assert_eq!(orgs.unwrap().len(), 42);
}

#[test]
fn organization_tests_it_retrieves_a_number_of_organizations() {
    let client = get_token_auth_client();
    let held = listed(500, "https://api.github.com/organizations?since=1");
    let (orgs, requested) = collect(client.organizations.some(1, 42), &held);
    assert_eq!(orgs.unwrap().len(), 42);
    assert_eq!(
        requested,
        vec![
            "https://api.github.com/organizations?since=1",
            "https://api.github.com/organizations?since=30",
        ]
    );
}

#[test]
fn a_window_starts_where_the_caller_says() {
    let client = get_token_auth_client();
    let session = client.organizations.some(135, 5);
    assert_eq!(session.limit(), 5);
    assert_eq!(session.request(), Some("https://api.github.com/organizations?since=135".to_string()));
}

#[test]
fn all_organizations_are_all_that_the_server_lists() {
    let client = get_token_auth_client();
    let session = client.organizations.all();
    assert_eq!(session.limit(), usize::MAX);
    let held = listed(95, "https://api.github.com/organizations?since=1");
    let (orgs, requested) = collect(session, &held);
    assert_eq!(orgs.unwrap().len(), 95);
    assert_eq!(requested.len(), 4);
}

#[test]
fn a_missing_page_of_organizations_is_an_error() {
    let client = get_token_auth_client();
    let mut held = listed(95, "https://api.github.com/organizations?since=1");
    held.remove(1);
    let (orgs, _) = collect(client.organizations.top(), &held);
    assert!(matches!(orgs, Err(FetchError::HttpStatus(404))));
}

#[test]
fn the_name_takes_the_place_of_the_placeholder() {
    let client = get_token_auth_client();
    let lookup = client.organizations.get_by_name(&root(), "octopusdeploy").unwrap();
    assert_eq!(lookup.route(), "https://api.github.com/orgs/octopusdeploy");
    assert_eq!(get_root_url(), "https://api.github.com");
}

#[test]
fn without_a_template_there_is_nothing_to_look_up() {
    let client = get_token_auth_client();
    assert!(client.organizations.get_by_name(&RootDocument::new(), "github").is_none());
    assert!(client.organizations.get_all_for_user(&RootDocument::new()).is_none());
}

#[test]
fn a_new_root_document_names_no_url() {
    let root = RootDocument::new();
    assert_eq!(root.current_user_url, None);
    assert_eq!(root.organization_url, None);
    assert_eq!(root.user_organizations_url, None);
    assert_eq!(root.user_repositories_url, None);
    assert_eq!(root.user_search_url, None);
}

#[test]
fn an_organization_is_described_in_one_line() {
    let org = organization("o", "Name With Spaces", 0, "d", "u");
    assert_eq!(org.to_string(), "org: Name With Spaces 0 d u");
    let org = organization("o", "", u64::MAX, "", "");
    assert_eq!(org.to_string(), "org:  18446744073709551615  ");
}
