//! The paginator: a resumable session that says which page to fetch next,
//! takes the answer, and aggregates items up to a caller-given limit.
//!
//! The session performs no I/O. Its owner asks [`Paginator::request`] for
//! the URL to fetch, performs the GET, and hands the outcome to
//! [`Paginator::next`], until `request` returns `None`; then
//! [`Paginator::finish`] yields the aggregate.

use vstd::prelude::*;
use crate::fetch::{FetchError, FetchErrorView, Response};
use crate::links::{links_of, text_of, PaginationLinks};
use crate::text::{contains_char, decimal, has_char, push_decimal, push_text};

verus! {

/// The limit on the number of items when the caller names none.
pub const DEFAULT_LIMIT: usize = 100;

/// The page-start index when the caller names none.
pub const DEFAULT_SINCE: usize = 1;

/// Where the next page is to be fetched from.
pub enum PageDescriptor {
    /// The first page: a base route and the index to start from.
    Initial { route: String, since: usize },
    /// A later page: the absolute URL that the previous page named as `next`.
    Continuation { url: String },
}

/// Mathematical value of a [`PageDescriptor`].
pub enum Descriptor {
    Initial { route: Seq<char>, since: nat },
    Continuation { url: Seq<char> },
}

impl View for PageDescriptor {
    type V = Descriptor;

    open spec fn view(&self) -> Descriptor {
        match self {
            PageDescriptor::Initial { route, since } => Descriptor::Initial {
                route: route@,
                since: *since as nat,
            },
            PageDescriptor::Continuation { url } => Descriptor::Continuation { url: url@ },
        }
    }
}

impl Descriptor {
    /// The URL to request. The start index is a query parameter, `since`,
    /// of the first request only: it follows the route after `?`, or after
    /// `&` where the route has a query of its own. A continuation is
    /// requested exactly as the server gave it.
    pub open spec fn url(self) -> Seq<char> {
        match self {
            Descriptor::Initial { route, since } => route + seq![
                if has_char(route, '?') {
                    '&'
                } else {
                    '?'
                },
            ] + "since="@ + decimal(since),
            Descriptor::Continuation { url } => url,
        }
    }
}

impl PageDescriptor {
    /// The URL to request for this page.
    pub fn url(&self) -> (url: String)
        ensures
            url@ == self@.url(),
    {
        match self {
            PageDescriptor::Initial { route, since } => {
                let mut url = String::new();
                push_text(&mut url, route.as_str());
                if contains_char(route.as_str(), '?') {
                    url.push('&');
                } else {
                    url.push('?');
                }
                push_text(&mut url, "since=");
                push_decimal(&mut url, *since as u64);
                url
            },
            PageDescriptor::Continuation { url } => url.clone(),
        }
    }
}

/// One decoded page: its items in server order and its links.
pub struct Page<T> {
    pub items: Vec<T>,
    pub links: PaginationLinks,
}

impl<T> Page<T> {
    /// The page that an answer amounts to once its body was decoded: the
    /// decoded items with the links of the answer's `Link` header, or
    /// [`FetchError::Decode`] where the body did not decode to a list of
    /// items.
    pub fn from_answer(response: &Response, parsed: Result<Vec<T>, String>) -> (page: Result<
        Page<T>,
        FetchError,
    >)
        ensures
            match parsed {
                Ok(items) => page is Ok && page->Ok_0.items == items && page->Ok_0.links@
                    == links_of(text_of(response.link)),
                Err(detail) => page is Err && page->Err_0@ == FetchErrorView::Decode(detail@),
            },
    {
        match parsed {
            Ok(items) => Ok(Page { items, links: PaginationLinks::from_header(&response.link) }),
            Err(detail) => Err(FetchError::Decode(detail)),
        }
    }
}

/// What came back for one requested page, as the session sees it.
pub enum Served<T> {
    /// A decoded page: its items and the URL of the next page, if any.
    Page { items: Seq<T>, next: Option<Seq<char>> },
    /// The fetch failed.
    Failed(FetchErrorView),
}

/// What an answer amounts to for the session.
pub open spec fn served<T>(answer: Result<Page<T>, FetchError>) -> Served<T> {
    match answer {
        Ok(page) => Served::Page { items: page.items@, next: page.links@.next },
        Err(error) => Served::Failed(error@),
    }
}

/// Mathematical value of a pagination session.
pub struct Session<T> {
    /// The page to fetch next; `None` once the session is over.
    pub pending: Option<Descriptor>,
    /// The items aggregated so far, in the order they were fetched.
    pub items: Seq<T>,
    /// The most items the caller wants.
    pub limit: nat,
    /// The error that ended the session, if one did.
    pub failure: Option<FetchErrorView>,
}

impl<T> Session<T> {
    /// The session before any page was fetched.
    pub open spec fn start(route: Seq<char>, since: nat, limit: nat) -> Session<T> {
        Session {
            pending: Some(Descriptor::Initial { route, since }),
            items: Seq::empty(),
            limit,
            failure: None,
        }
    }

    /// Whether no further page will be requested.
    pub open spec fn is_over(self) -> bool {
        self.pending is None
    }

    /// The session after the answer `answer` to its pending request.
    ///
    /// A failure ends the session and discards what was aggregated. An empty
    /// page, or any page that arrives when the limit is already met, ends it
    /// and adds nothing. A page that would overshoot the limit is cut to the
    /// items that still fit and ends it. Any other page is added whole, and
    /// the session goes on with the page's `next` link, or ends if there is
    /// none. A session that is over ignores further answers.
    pub open spec fn step(self, answer: Served<T>) -> Session<T> {
        if self.pending is None {
            self
        } else {
            match answer {
                Served::Failed(error) => Session {
                    pending: None,
                    items: Seq::empty(),
                    limit: self.limit,
                    failure: Some(error),
                },
                Served::Page { items, next } => {
                    if items.len() == 0 || self.items.len() >= self.limit {
                        Session { pending: None, ..self }
                    } else if self.items.len() + items.len() > self.limit {
                        Session {
                            pending: None,
                            items: self.items + items.take(self.limit - self.items.len()),
                            ..self
                        }
                    } else {
                        Session {
                            pending: match next {
                                Some(url) => Some(Descriptor::Continuation { url }),
                                None => None,
                            },
                            items: self.items + items,
                            ..self
                        }
                    }
                },
            }
        }
    }

    /// What holds of every session: it never holds more items than its
    /// limit allows, and one that a failure ended is over and holds none.
    pub open spec fn is_valid(self) -> bool {
        &&& self.items.len() <= self.limit
        &&& self.failure is Some ==> self.pending is None && self.items.len() == 0
    }

    /// What the whole call returns once the session is over: the error that
    /// ended it, or else the aggregate.
    pub open spec fn result(self) -> Result<Seq<T>, FetchErrorView> {
        match self.failure {
            Some(error) => Err(error),
            None => Ok(self.items),
        }
    }
}

/// A pagination session over items of type `T`.
pub struct Paginator<T> {
    descriptor: Option<PageDescriptor>,
    limit: usize,
    items: Vec<T>,
    failure: Option<FetchError>,
}

impl<T> View for Paginator<T> {
    type V = Session<T>;

    closed spec fn view(&self) -> Session<T> {
        Session {
            pending: match self.descriptor {
                Some(descriptor) => Some(descriptor@),
                None => None,
            },
            items: self.items@,
            limit: self.limit as nat,
            failure: match self.failure {
                Some(error) => Some(error@),
                None => None,
            },
        }
    }
}

/// The value of an optional number, or `default` when there is none.
pub open spec fn or_default(value: Option<usize>, default: usize) -> nat {
    match value {
        Some(n) => n as nat,
        None => default as nat,
    }
}

impl<T> Paginator<T> {
    #[verifier::type_invariant]
    spec fn holds_no_more_than_its_limit(&self) -> bool {
        &&& self.items.len() <= self.limit
        &&& self.failure is Some ==> self.descriptor is None && self.items.len() == 0
    }

    /// Opens a session on `route`. Without `since` the first page starts at
    /// index 1; without `limit` at most 100 items are collected.
    pub fn new(route: String, since: Option<usize>, limit: Option<usize>) -> (paginator: Paginator<T>)
        ensures
            paginator@ == Session::<T>::start(
                route@,
                or_default(since, DEFAULT_SINCE),
                or_default(limit, DEFAULT_LIMIT),
            ),
    {
        let since = match since {
            Some(n) => n,
            None => DEFAULT_SINCE,
        };
        let limit = match limit {
            Some(n) => n,
            None => DEFAULT_LIMIT,
        };
        Paginator {
            descriptor: Some(PageDescriptor::Initial { route, since }),
            limit,
            items: Vec::new(),
            failure: None,
        }
    }

    /// The URL of the page to fetch next, or `None` when the session is over.
    pub fn request(&self) -> (url: Option<String>)
        ensures
            match self@.pending {
                Some(descriptor) => url is Some && url->0@ == descriptor.url(),
                None => url is None,
            },
    {
        match &self.descriptor {
            Some(descriptor) => Some(descriptor.url()),
            None => None,
        }
    }

    /// The number of items aggregated so far.
    pub fn count(&self) -> (count: usize)
        ensures
            count == self@.items.len(),
            count <= self@.limit,
    {
        proof {
            use_type_invariant(self);
        }
        self.items.len()
    }

    /// The most items this session will return.
    pub fn limit(&self) -> (limit: usize)
        ensures
            limit == self@.limit,
    {
        self.limit
    }

    /// Takes the answer to the pending request and moves the session on.
    pub fn next(&mut self, answer: Result<Page<T>, FetchError>)
        ensures
            final(self)@ == old(self)@.step(served(answer)),
            old(self)@.is_valid(),
            final(self)@.is_valid(),
    {
        proof {
            use_type_invariant(&*self);
        }
        if self.descriptor.is_none() {
            return ;
        }
        match answer {
            Err(error) => {
                self.descriptor = None;
                self.items = Vec::new();
                self.failure = Some(error);
            },
            Ok(page) => {
                let mut batch = page.items;
                let count = self.items.len();
                if batch.len() == 0 || count >= self.limit {
                    self.descriptor = None;
                } else if batch.len() > self.limit - count {
                    batch.truncate(self.limit - count);
                    let mut items = Vec::new();
                    std::mem::swap(&mut items, &mut self.items);
                    items.append(&mut batch);
                    self.items = items;
                    self.descriptor = None;
                } else {
                    let mut items = Vec::new();
                    std::mem::swap(&mut items, &mut self.items);
                    items.append(&mut batch);
                    self.items = items;
                    self.descriptor = match page.links.next_link {
                        Some(url) => Some(PageDescriptor::Continuation { url }),
                        None => None,
                    };
                }
            },
        }
    }

    /// Ends the session and hands out what the call returns: the error that
    /// ended it, with nothing of what was aggregated before, or the items in
    /// the order they were fetched.
    pub fn finish(self) -> (result: Result<Vec<T>, FetchError>)
        ensures
            match self@.result() {
                Ok(items) => result is Ok && result->Ok_0@ == items,
                Err(error) => result is Err && result->Err_0@ == error,
            },
            result is Ok ==> result->Ok_0.len() <= self@.limit,
    {
        proof {
            use_type_invariant(&self);
        }
        match self.failure {
            Some(error) => Err(error),
            None => Ok(self.items),
        }
    }
}

} // verus!
