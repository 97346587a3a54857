//! Whole traversals: what a pagination session amounts to over a series of
//! answers, and the laws that hold of it.

use vstd::prelude::*;
use crate::fetch::{is_success, refusal, FetchErrorView, Response};
use crate::paginator::{Descriptor, Served, Session};

verus! {

/// The session after the answers `answers`, taken in order.
pub open spec fn run<T>(session: Session<T>, answers: Seq<Served<T>>) -> Session<T>
    decreases answers.len(),
{
    if answers.len() == 0 {
        session
    } else {
        run(session.step(answers[0]), answers.drop_first())
    }
}

/// Whether every answer is a decoded page.
pub open spec fn all_pages<T>(answers: Seq<Served<T>>) -> bool {
    forall|i: int| 0 <= i < answers.len() ==> #[trigger] answers[i] is Page
}

/// The items that a server offers through the pages `answers`: those of each
/// page up to and including the first that is empty or names no next page.
pub open spec fn available<T>(answers: Seq<Served<T>>) -> Seq<T>
    decreases answers.len(),
{
    if answers.len() == 0 {
        Seq::empty()
    } else {
        match answers[0] {
            Served::Failed(_) => Seq::empty(),
            Served::Page { items, next } => if items.len() == 0 || next is None {
                items
            } else {
                items + available(answers.drop_first())
            },
        }
    }
}

/// The smaller of two numbers.
pub open spec fn least(a: nat, b: nat) -> nat {
    if a <= b {
        a
    } else {
        b
    }
}

/// A session that is over stays as it is, whatever arrives.
pub proof fn lemma_over_is_final<T>(session: Session<T>, answers: Seq<Served<T>>)
    requires
        session.is_over(),
    ensures
        run(session, answers) == session,
    decreases answers.len(),
{
    if answers.len() > 0 {
        lemma_over_is_final(session.step(answers[0]), answers.drop_first());
    }
}

/// The number of aggregated items never exceeds the limit: a step keeps a
/// session within its limit, and leaves the limit as it was.
pub proof fn lemma_step_within_limit<T>(session: Session<T>, answer: Served<T>)
    requires
        session.items.len() <= session.limit,
    ensures
        session.step(answer).items.len() <= session.limit,
        session.step(answer).limit == session.limit,
{
}

/// The number of aggregated items never exceeds the limit, after any series
/// of answers to a session opened with that limit.
pub proof fn lemma_never_exceeds_limit<T>(
    route: Seq<char>,
    since: nat,
    limit: nat,
    answers: Seq<Served<T>>,
)
    ensures
        run(Session::<T>::start(route, since, limit), answers).items.len() <= limit,
{
    lemma_run_within_limit(Session::<T>::start(route, since, limit), answers);
}

/// Any series of answers keeps a session within its limit.
pub proof fn lemma_run_within_limit<T>(session: Session<T>, answers: Seq<Served<T>>)
    requires
        session.items.len() <= session.limit,
    ensures
        run(session, answers).items.len() <= session.limit,
        run(session, answers).limit == session.limit,
    decreases answers.len(),
{
    if answers.len() > 0 {
        lemma_step_within_limit(session, answers[0]);
        lemma_run_within_limit(session.step(answers[0]), answers.drop_first());
    }
}

/// A session ends after no more answers than it has room for items, plus
/// one: every page that does not end it adds at least one item, so a server
/// that never stops naming a next page cannot keep it going.
pub proof fn lemma_run_ends<T>(session: Session<T>, answers: Seq<Served<T>>)
    requires
        session.items.len() <= session.limit,
        answers.len() > session.limit - session.items.len(),
    ensures
        run(session, answers).is_over(),
    decreases answers.len(),
{
    let after = session.step(answers[0]);
    let rest = answers.drop_first();
    if after.is_over() {
        lemma_over_is_final(after, rest);
    } else {
        lemma_run_ends(after, rest);
    }
}

/// A traversal with limit `limit` makes at most `limit + 1` requests.
pub proof fn lemma_traversal_is_bounded<T>(
    route: Seq<char>,
    since: nat,
    limit: nat,
    answers: Seq<Served<T>>,
)
    requires
        answers.len() > limit,
    ensures
        run(Session::<T>::start(route, since, limit), answers).is_over(),
{
    lemma_run_ends(Session::<T>::start(route, since, limit), answers);
}

/// What a session that has met no failure holds after a series of decoded
/// pages: what it held, followed by what the pages offer, cut at the limit.
pub proof fn lemma_run_collects<T>(session: Session<T>, answers: Seq<Served<T>>)
    requires
        !session.is_over(),
        session.failure is None,
        session.items.len() <= session.limit,
        all_pages(answers),
    ensures
        run(session, answers).failure is None,
        run(session, answers).items == (session.items + available(answers)).take(
            least(session.limit, session.items.len() + available(answers).len()) as int,
        ),
    decreases answers.len(),
{
    let offered = session.items + available(answers);
    let kept = least(session.limit, session.items.len() + available(answers).len()) as int;
    if answers.len() == 0 {
        assert(session.items =~= offered.take(kept));
    } else {
        let first = answers[0];
        let rest = answers.drop_first();
        let after = session.step(first);
        assert(first is Page);
        if after.is_over() {
            lemma_over_is_final(after, rest);
            assert(after.items =~= offered.take(kept));
        } else {
            assert(all_pages(rest)) by {
                assert forall|i: int| 0 <= i < rest.len() implies #[trigger] rest[i] is Page by {
                    assert(rest[i] == answers[i + 1]);
                }
            }
            lemma_run_collects(after, rest);
            assert(after.items + available(rest) =~= offered);
        }
    }
}

/// A traversal over an unfailing server returns the items on offer, in page
/// order, cut at the limit: their number is the smaller of the limit and
/// the number on offer.
pub proof fn lemma_collect_returns_least<T>(
    route: Seq<char>,
    since: nat,
    limit: nat,
    answers: Seq<Served<T>>,
)
    requires
        all_pages(answers),
    ensures
        run(Session::<T>::start(route, since, limit), answers).result() == Ok::<
            Seq<T>,
            FetchErrorView,
        >(available(answers).take(least(limit, available(answers).len()) as int)),
        run(Session::<T>::start(route, since, limit), answers).items.len() == least(
            limit,
            available(answers).len(),
        ),
{
    let start = Session::<T>::start(route, since, limit);
    lemma_run_collects(start, answers);
    assert(start.items + available(answers) =~= available(answers));
}

/// With a limit of zero the first answer ends the session: no second
/// request is made, and when that answer is a page the result is empty.
pub proof fn lemma_zero_limit<T>(route: Seq<char>, since: nat, answer: Served<T>)
    ensures
        Session::<T>::start(route, since, 0).step(answer).is_over(),
        answer is Page ==> Session::<T>::start(route, since, 0).step(answer).result() == Ok::<
            Seq<T>,
            FetchErrorView,
        >(Seq::empty()),
{
}

/// An empty page ends the session whether or not it names a next page: the
/// next URL is never requested, and what was aggregated is kept as it is.
pub proof fn lemma_empty_page_ends<T>(session: Session<T>, next: Option<Seq<char>>)
    ensures
        session.step(Served::Page { items: Seq::empty(), next }).is_over(),
        session.step(Served::Page { items: Seq::empty(), next }).items == session.items,
        session.step(Served::Page { items: Seq::empty(), next }).failure == session.failure,
{
}

/// A failure on any page, the first or a later one, ends the session with
/// that failure, and nothing of what was aggregated is returned.
pub proof fn lemma_failure_aborts<T>(session: Session<T>, error: FetchErrorView)
    requires
        !session.is_over(),
    ensures
        session.step(Served::Failed(error)).is_over(),
        session.step(Served::Failed(error)).result() == Err::<Seq<T>, FetchErrorView>(error),
        session.step(Served::Failed(error)).items.len() == 0,
{
}

/// An answer with a status outside 2xx, on any page, ends the session with
/// the error that carries that status.
pub proof fn lemma_bad_status_aborts<T>(session: Session<T>, response: Response)
    requires
        !session.is_over(),
        !is_success(response.status),
    ensures
        refusal(Ok(response)) == Some(FetchErrorView::HttpStatus(response.status)),
        session.step(Served::Failed(refusal(Ok(response))->0)).result() == Err::<
            Seq<T>,
            FetchErrorView,
        >(FetchErrorView::HttpStatus(response.status)),
{
}

/// Once a continuation is followed, the requested URL is the one the server
/// named, with nothing appended.
pub proof fn lemma_continuation_url_is_verbatim<T>(
    session: Session<T>,
    items: Seq<T>,
    url: Seq<char>,
)
    requires
        !session.is_over(),
        0 < items.len(),
        session.items.len() + items.len() <= session.limit,
    ensures
        session.step(Served::Page { items, next: Some(url) }).pending == Some(
            Descriptor::Continuation { url },
        ),
        (Descriptor::Continuation { url }).url() == url,
{
}

} // verus!
