//! Organizations: the routes under which they are found and the shapes
//! they are decoded to.

use vstd::prelude::*;
use crate::clients::{get_root_url, root_url, GitHubClientOptions, RootDocument};
use crate::fetch::Lookup;
use crate::paginator::{Paginator, Session};
use crate::text::{decimal, fill, push_decimal, push_text, substitute};

verus! {

/// The route of the list of all organizations.
pub open spec fn organizations_route() -> Seq<char> {
    root_url() + "/organizations"@
}

/// The text that describes an organization: its name, id, description and
/// URL after `org:`, one space between neighbours.
pub open spec fn organization_text(
    name: Seq<char>,
    id: u64,
    description: Seq<char>,
    url: Seq<char>,
) -> Seq<char> {
    "org: "@ + name + " "@ + decimal(id as nat) + " "@ + description + " "@ + url
}

/// The client for organizations.
pub struct OrganizationsClient {
    pub options: GitHubClientOptions,
}

impl OrganizationsClient {
    /// The route of the list of all organizations.
    fn route() -> (route: String)
        ensures
            route@ == organizations_route(),
    {
        let mut route = String::new();
        push_text(&mut route, get_root_url());
        push_text(&mut route, "/organizations");
        assert(route@ =~= organizations_route());
        route
    }

    /// The organization called `name`: the template that `root` gives for
    /// organizations, with `name` in place of `{org}`. `None` where `root`
    /// gives no such template.
    pub fn get_by_name(&self, root: &RootDocument, name: &str) -> (lookup: Option<
        Lookup<Organization>,
    >)
        ensures
            match root.organization_url {
                Some(template) => lookup is Some && lookup->0@ == substitute(
                    template@,
                    "{org}"@,
                    name@,
                ),
                None => lookup is None,
            },
    {
        match &root.organization_url {
            Some(template) => Some(Lookup::new(fill(template.as_str(), "{org}", name))),
            None => None,
        }
    }

    /// The organizations of the authenticated user, at the URL that `root`
    /// gives for them. `None` where `root` gives none.
    pub fn get_all_for_user(&self, root: &RootDocument) -> (lookup: Option<
        Lookup<Vec<OrganizationSummary>>,
    >)
        ensures
            match root.user_organizations_url {
                Some(url) => lookup is Some && lookup->0@ == url@,
                None => lookup is None,
            },
    {
        match &root.user_organizations_url {
            Some(url) => Some(Lookup::new(url.clone())),
            None => None,
        }
    }

    /// All organizations, from the first on: a session without a limit
    /// short of what the machine can count.
    pub fn all(&self) -> (session: Paginator<OrganizationSummary>)
        ensures
            session@ == Session::<OrganizationSummary>::start(
                organizations_route(),
                1,
                usize::MAX as nat,
            ),
    {
        Paginator::new(OrganizationsClient::route(), Some(1), Some(usize::MAX))
    }

    /// At most `limit` organizations, starting at index `since`.
    pub fn some(&self, since: usize, limit: usize) -> (session: Paginator<OrganizationSummary>)
        ensures
            session@ == Session::<OrganizationSummary>::start(
                organizations_route(),
                since as nat,
                limit as nat,
            ),
    {
        Paginator::new(OrganizationsClient::route(), Some(since), Some(limit))
    }

    /// The first 100 organizations.
    pub fn top(&self) -> (session: Paginator<OrganizationSummary>)
        ensures
            session@ == Session::<OrganizationSummary>::start(organizations_route(), 1, 100),
    {
        Paginator::new(OrganizationsClient::route(), Some(1), Some(100))
    }
}

/// An organization, as its own resource describes it.
#[derive(Clone, Debug)]
pub struct Organization {
    pub login: String,
    pub id: u64,
    pub node_id: String,
    pub url: String,
    pub repos_url: String,
    pub events_url: String,
    pub hooks_url: String,
    pub issues_url: String,
    pub members_url: String,
    pub public_members_url: String,
    pub avatar_url: String,
    pub description: String,
    pub name: String,
    pub company: Option<String>,
    pub blog: Option<String>,
    pub location: Option<String>,
    pub email: Option<String>,
    pub is_verified: bool,
    pub has_organization_projects: bool,
    pub has_repository_projects: bool,
    pub public_repos: u64,
    pub public_gists: u64,
    pub followers: Option<u64>,
    pub following: Option<u64>,
    pub html_url: String,
    pub created_at: String,
    pub updated_at: String,
    pub kind: String,
    pub total_private_repos: Option<u64>,
    pub owned_private_repos: Option<u64>,
    pub private_gists: Option<u64>,
    pub disk_usage: Option<u64>,
    pub collaborators: Option<u64>,
    pub billing_email: Option<String>,
    pub default_repository_permission: Option<String>,
    pub members_can_create_repositories: Option<bool>,
    pub two_factor_requirement_enabled: Option<bool>,
    pub plan: Option<GitHubPlanInfo>,
}

/// An organization as it appears in a list.
#[derive(Clone, Debug)]
pub struct OrganizationSummary {
    pub login: String,
    pub id: u64,
    pub node_id: String,
    pub url: String,
    pub repos_url: Option<String>,
    pub events_url: Option<String>,
    pub hooks_url: Option<String>,
    pub issues_url: Option<String>,
    pub members_url: Option<String>,
    pub public_members_url: Option<String>,
    pub avatar_url: Option<String>,
    pub description: Option<String>,
}

/// The plan that an organization is on.
#[derive(Clone, Debug)]
pub struct GitHubPlanInfo {
    pub name: Option<String>,
    pub space: Option<u64>,
    pub private_repos: Option<u64>,
    pub filled_seats: Option<u64>,
    pub seats: Option<u64>,
}

impl Organization {
    /// Describes the organization in one line.
    pub fn to_string(&self) -> (text: String)
        ensures
            text@ == organization_text(self.name@, self.id, self.description@, self.url@),
    {
        let mut text = String::new();
        push_text(&mut text, "org: ");
        push_text(&mut text, self.name.as_str());
        push_text(&mut text, " ");
        push_decimal(&mut text, self.id);
        push_text(&mut text, " ");
        push_text(&mut text, self.description.as_str());
        push_text(&mut text, " ");
        push_text(&mut text, self.url.as_str());
        assert(text@ =~= organization_text(self.name@, self.id, self.description@, self.url@));
        text
    }
}

} // verus!
