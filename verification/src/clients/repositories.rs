//! Repositories: the routes under which they are found and the shapes
//! they are decoded to.

use std::collections::HashMap;
use vstd::prelude::*;
use crate::clients::{get_root_url, root_url, GitHubClientOptions, RootDocument};
use crate::fetch::Lookup;
use crate::paginator::{Paginator, Session, DEFAULT_SINCE};
use crate::text::{fill, push_text, substitute};

verus! {

/// The text of an optional parameter, or `default` where it is left out.
pub open spec fn or_text(value: Option<String>, default: Seq<char>) -> Seq<char> {
    match value {
        Some(text) => text@,
        None => default,
    }
}

/// The route of the repositories of the organization `org_name`, filtered
/// by `kind`, sorted by `sort` in the direction `direction`.
pub open spec fn organization_repositories_route(
    org_name: Seq<char>,
    kind: Seq<char>,
    sort: Seq<char>,
    direction: Seq<char>,
) -> Seq<char> {
    root_url() + "/orgs/"@ + org_name + "/repos?type="@ + kind + "&sort="@
        + sort + "&direction="@ + direction
}

/// The client for repositories.
pub struct RepositoriesClient {
    pub options: GitHubClientOptions,
}

impl RepositoriesClient {
    /// The repositories of `user`: the template that `root` gives for the
    /// repositories of a user, with `user` in place of `{user}`. `None`
    /// where `root` gives no such template.
    pub fn for_user(&self, root: &RootDocument, user: &str) -> (lookup: Option<
        Lookup<Vec<RepositorySummary>>,
    >)
        ensures
            match root.user_repositories_url {
                Some(template) => lookup is Some && lookup->0@ == substitute(
                    template@,
                    "{user}"@,
                    user@,
                ),
                None => lookup is None,
            },
    {
        match &root.user_repositories_url {
            Some(template) => Some(Lookup::new(fill(template.as_str(), "{user}", user))),
            None => None,
        }
    }

    /// All repositories of the organization `org_name`. Left out, the type
    /// is `all`, the sort key `created` and the direction `desc`.
    pub fn for_org_name(
        &self,
        org_name: &str,
        kind: Option<String>,
        sort: Option<String>,
        direction: Option<String>,
    ) -> (session: Paginator<Repository>)
        ensures
            session@ == Session::<Repository>::start(
                organization_repositories_route(
                    org_name@,
                    or_text(kind, "all"@),
                    or_text(sort, "created"@),
                    or_text(direction, "desc"@),
                ),
                DEFAULT_SINCE as nat,
                usize::MAX as nat,
            ),
    {
        let mut route = String::new();
        push_text(&mut route, get_root_url());
        push_text(&mut route, "/orgs/");
        push_text(&mut route, org_name);
        push_text(&mut route, "/repos?type=");
        match &kind {
            Some(text) => push_text(&mut route, text.as_str()),
            None => push_text(&mut route, "all"),
        }
        push_text(&mut route, "&sort=");
        match &sort {
            Some(text) => push_text(&mut route, text.as_str()),
            None => push_text(&mut route, "created"),
        }
        push_text(&mut route, "&direction=");
        match &direction {
            Some(text) => push_text(&mut route, text.as_str()),
            None => push_text(&mut route, "desc"),
        }
        assert(route@ =~= organization_repositories_route(
            org_name@,
            or_text(kind, "all"@),
            or_text(sort, "created"@),
            or_text(direction, "desc"@),
        ));
        Paginator::new(route, None, Some(usize::MAX))
    }
}

/// A repository, as the list of an organization describes it.
#[derive(Clone, Debug)]
pub struct Repository {
    pub id: u64,
    pub node_id: Option<String>,
    pub name: Option<String>,
    pub full_name: Option<String>,
    pub owner: RepositoryOwner,
    pub private: bool,
    pub html_url: Option<String>,
    pub description: Option<String>,
    pub fork: bool,
    pub url: Option<String>,
    pub archive_url: Option<String>,
    pub assignees_url: Option<String>,
    pub blobs_url: Option<String>,
    pub branches_url: Option<String>,
    pub collaborators_url: Option<String>,
    pub comments_url: Option<String>,
    pub commits_url: Option<String>,
    pub compare_url: Option<String>,
    pub contents_url: Option<String>,
    pub contributors_url: Option<String>,
    pub deployments_url: Option<String>,
    pub downloads_url: Option<String>,
    pub events_url: Option<String>,
    pub forks_url: Option<String>,
    pub git_commits_url: Option<String>,
    pub git_refs_url: Option<String>,
    pub git_tags_url: Option<String>,
    pub git_url: Option<String>,
    pub issue_comment_url: Option<String>,
    pub issue_events_url: Option<String>,
    pub issues_url: Option<String>,
    pub keys_url: Option<String>,
    pub labels_url: Option<String>,
    pub languages_url: Option<String>,
    pub merges_url: Option<String>,
    pub milestones_url: Option<String>,
    pub notifications_url: Option<String>,
    pub pulls_url: Option<String>,
    pub releases_url: Option<String>,
    pub ssh_url: Option<String>,
    pub stargazers_url: Option<String>,
    pub statuses_url: Option<String>,
    pub subscribers_url: Option<String>,
    pub subscription_url: Option<String>,
    pub tags_url: Option<String>,
    pub teams_url: Option<String>,
    pub trees_url: Option<String>,
    pub clone_url: Option<String>,
    pub mirror_url: Option<String>,
    pub hooks_url: Option<String>,
    pub svn_url: Option<String>,
    pub homepage: Option<String>,
    pub language: Option<String>,
    pub forks_count: Option<u64>,
    pub stargazers_count: Option<u64>,
    pub watchers_count: Option<u64>,
    pub size: Option<u64>,
    pub default_branch: Option<String>,
    pub open_issues_count: Option<u64>,
    pub topics: Option<Vec<String>>,
    pub has_issues: bool,
    pub has_projects: bool,
    pub has_wiki: bool,
    pub has_pages: bool,
    pub has_downloads: bool,
    pub archived: bool,
    pub disabled: bool,
    pub pushed_at: Option<String>,
    pub created_at: Option<String>,
    pub updated_at: Option<String>,
    pub permissions: Option<HashMap<String, bool>>,
    pub subscribers_count: Option<u64>,
    pub network_count: Option<u64>,
    pub license: Option<RepositoryLicense>,
}

/// A repository as it appears in the list of a user.
#[derive(Clone, Debug)]
pub struct RepositorySummary {
    pub id: u64,
    pub node_id: String,
    pub name: String,
    pub full_name: Option<String>,
    pub owner: RepositoryOwner,
    pub private: bool,
    pub html_url: Option<String>,
    pub description: Option<String>,
    pub fork: bool,
    pub url: Option<String>,
    pub archive_url: Option<String>,
    pub assignees_url: Option<String>,
    pub blobs_url: Option<String>,
    pub branches_url: Option<String>,
    pub collaborators_url: Option<String>,
    pub comments_url: Option<String>,
    pub commits_url: Option<String>,
    pub compare_url: Option<String>,
    pub contents_url: Option<String>,
    pub contributors_url: Option<String>,
    pub deployments_url: Option<String>,
    pub downloads_url: Option<String>,
    pub events_url: Option<String>,
    pub forks_url: Option<String>,
    pub git_commits_url: Option<String>,
    pub git_refs_url: Option<String>,
    pub git_tags_url: Option<String>,
    pub git_url: Option<String>,
    pub issue_comment_url: Option<String>,
    pub issue_events_url: Option<String>,
    pub issues_url: Option<String>,
    pub keys_url: Option<String>,
    pub labels_url: Option<String>,
    pub languages_url: Option<String>,
    pub merges_url: Option<String>,
    pub milestones_url: Option<String>,
    pub notifications_url: Option<String>,
    pub pulls_url: Option<String>,
    pub releases_url: Option<String>,
    pub ssh_url: Option<String>,
    pub stargazers_url: Option<String>,
    pub statuses_url: Option<String>,
    pub subscribers_url: Option<String>,
    pub subscription_url: Option<String>,
    pub tags_url: Option<String>,
    pub teams_url: Option<String>,
    pub trees_url: Option<String>,
}

/// The account that owns a repository.
#[derive(Clone, Debug)]
pub struct RepositoryOwner {
    pub login: Option<String>,
    pub id: u64,
    pub node_id: Option<String>,
    pub avatar_url: Option<String>,
    pub gravatar_id: Option<String>,
    pub url: Option<String>,
    pub html_url: Option<String>,
    pub followers_url: Option<String>,
    pub following_url: Option<String>,
    pub gists_url: Option<String>,
    pub starred_url: Option<String>,
    pub subscriptions_url: Option<String>,
    pub organizations_url: Option<String>,
    pub repos_url: Option<String>,
    pub events_url: Option<String>,
    pub received_events_url: Option<String>,
    pub kind: Option<String>,
    pub site_admin: bool,
}

/// The license of a repository.
#[derive(Clone, Debug)]
pub struct RepositoryLicense {
    pub key: Option<String>,
    pub name: Option<String>,
    pub spdx_id: Option<String>,
    pub url: Option<String>,
    pub node_id: Option<String>,
}

} // verus!
