//! What holds of the links read from every header value: only well-formed
//! entries count, and each relation holds the URL of the last entry that
//! names it.

use vstd::prelude::*;
use crate::links::{last_link, link_of, links_among, parse, LinkSet, Relation};
use crate::text::{has_char, lemma_index_of_is, split};

verus! {

/// `entries` written as one header value, with a comma between neighbours.
pub open spec fn join(entries: Seq<Seq<char>>) -> Seq<char>
    decreases entries.len(),
{
    if entries.len() == 0 {
        Seq::empty()
    } else if entries.len() == 1 {
        entries[0]
    } else {
        entries[0] + seq![','] + join(entries.drop_first())
    }
}

/// Whether no entry holds a comma.
pub open spec fn comma_free(entries: Seq<Seq<char>>) -> bool {
    forall|i: int| 0 <= i < entries.len() ==> !has_char(#[trigger] entries[i], ',')
}

/// Whether `entry` gives a URL for some relation. Every other entry is
/// malformed: it lacks a bracketed URL, or names no known relation.
pub open spec fn is_well_formed(entry: Seq<char>) -> bool {
    ||| link_of(entry, Relation::Next) is Some
    ||| link_of(entry, Relation::Prev) is Some
    ||| link_of(entry, Relation::First) is Some
    ||| link_of(entry, Relation::Last) is Some
}

/// The entries of `entries` that are well-formed, in order.
pub open spec fn well_formed(entries: Seq<Seq<char>>) -> Seq<Seq<char>> {
    entries.filter(|entry: Seq<char>| is_well_formed(entry))
}

/// A header value written from comma-free entries splits into those entries.
pub proof fn lemma_split_join(entries: Seq<Seq<char>>)
    requires
        entries.len() > 0,
        comma_free(entries),
    ensures
        split(join(entries), ',') == entries,
    decreases entries.len(),
{
    let head = entries[0];
    if entries.len() == 1 {
        assert(!has_char(head, ','));
        lemma_index_of_is(head, ',', head.len() as int);
        assert(seq![head] =~= entries);
    } else {
        let rest = entries.drop_first();
        let value = join(entries);
        assert(comma_free(rest)) by {
            assert forall|i: int| 0 <= i < rest.len() implies !has_char(#[trigger] rest[i], ',') by {
                assert(rest[i] == entries[i + 1]);
            }
        }
        lemma_split_join(rest);
        assert(!has_char(head, ','));
        assert forall|j: int| 0 <= j < head.len() implies value[j] != ',' by {
            assert(value[j] == head[j]);
        }
        lemma_index_of_is(value, ',', head.len() as int);
        assert(value.take(head.len() as int) =~= head);
        assert(value.skip(head.len() as int + 1) =~= join(rest));
        assert(seq![head] + rest =~= entries);
    }
}

/// The URL held for a relation is that of the last entry that gives one
/// for it, and a relation is unset exactly when no entry gives one.
pub proof fn lemma_last_link(entries: Seq<Seq<char>>, relation: Relation)
    ensures
        match last_link(entries, relation) {
            Some(url) => exists|i: int|
                0 <= i < entries.len() && #[trigger] link_of(entries[i], relation) == Some(url)
                    && forall|j: int|
                    i < j < entries.len() ==> #[trigger] link_of(entries[j], relation) is None,
            None => forall|i: int|
                0 <= i < entries.len() ==> #[trigger] link_of(entries[i], relation) is None,
        },
    decreases entries.len(),
{
    if entries.len() > 0 {
        let before = entries.drop_last();
        let n = entries.len() - 1;
        if link_of(entries.last(), relation) is Some {
            assert(link_of(entries[n], relation) == last_link(entries, relation));
        } else {
            lemma_last_link(before, relation);
            match last_link(before, relation) {
                Some(url) => {
                    let i = choose|i: int|
                        0 <= i < before.len() && #[trigger] link_of(before[i], relation) == Some(
                            url,
                        ) && forall|j: int|
                            i < j < before.len() ==> #[trigger] link_of(before[j], relation)
                                is None;
                    assert(link_of(entries[i], relation) == Some(url));
                    assert forall|j: int| i < j < entries.len() implies #[trigger] link_of(
                        entries[j],
                        relation,
                    ) is None by {
                        if j < n {
                            assert(entries[j] == before[j]);
                        }
                    }
                },
                None => {
                    assert forall|i: int| 0 <= i < entries.len() implies #[trigger] link_of(
                        entries[i],
                        relation,
                    ) is None by {
                        if i < n {
                            assert(entries[i] == before[i]);
                        }
                    }
                },
            }
        }
    }
}

/// Leaving the malformed entries out changes the URL of no relation.
pub proof fn lemma_last_link_of_well_formed(entries: Seq<Seq<char>>, relation: Relation)
    ensures
        last_link(well_formed(entries), relation) == last_link(entries, relation),
    decreases entries.len(),
{
    let keep = |entry: Seq<char>| is_well_formed(entry);
    if entries.len() == 0 {
        assert(entries.filter(keep) =~= entries) by {
            reveal(Seq::filter);
        }
    } else {
        let before = entries.drop_last();
        let last = entries.last();
        lemma_last_link_of_well_formed(before, relation);
        before.lemma_filter_push(last, keep);
        assert(before.push(last) =~= entries);
        if is_well_formed(last) {
            assert(before.filter(keep).push(last).drop_last() =~= before.filter(keep));
        }
    }
}

/// Every header value gives exactly the links of its well-formed entries.
pub proof fn lemma_only_well_formed_entries_count(header: Seq<char>)
    ensures
        parse(header) == links_among(well_formed(split(header, ','))),
{
    let entries = split(header, ',');
    lemma_last_link_of_well_formed(entries, Relation::Next);
    lemma_last_link_of_well_formed(entries, Relation::Prev);
    lemma_last_link_of_well_formed(entries, Relation::First);
    lemma_last_link_of_well_formed(entries, Relation::Last);
}

/// A header value made of well-formed and malformed entries, in any
/// order, gives exactly the links of its well-formed entries: the
/// malformed ones are skipped without effect on the rest.
pub proof fn lemma_malformed_entries_are_skipped(entries: Seq<Seq<char>>)
    requires
        entries.len() > 0,
        comma_free(entries),
    ensures
        parse(join(entries)) == links_among(well_formed(entries)),
        parse(join(entries)) == links_among(entries),
{
    lemma_split_join(entries);
    lemma_last_link_of_well_formed(entries, Relation::Next);
    lemma_last_link_of_well_formed(entries, Relation::Prev);
    lemma_last_link_of_well_formed(entries, Relation::First);
    lemma_last_link_of_well_formed(entries, Relation::Last);
}

/// A header value whose entries are all malformed, the empty value among
/// them, gives no link.
pub proof fn lemma_no_well_formed_entry(entries: Seq<Seq<char>>)
    requires
        entries.len() > 0,
        comma_free(entries),
        forall|i: int| 0 <= i < entries.len() ==> !is_well_formed(#[trigger] entries[i]),
    ensures
        parse(join(entries)) == LinkSet::empty(),
{
    lemma_split_join(entries);
    assert forall|relation: Relation| last_link(entries, relation) is None by {
        lemma_last_link(entries, relation);
        if last_link(entries, relation) is Some {
            let i = choose|i: int|
                0 <= i < entries.len() && #[trigger] link_of(entries[i], relation)
                    == last_link(entries, relation);
            assert(!is_well_formed(entries[i]));
        }
    }
}

} // verus!
