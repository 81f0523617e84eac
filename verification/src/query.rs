//! Search, sorting and paging parameters taken from a query string.

use crate::text::{is_one_of, join, join_strings, slice_texts, texts};
use vstd::prelude::*;
use vstd::string::*;

verus! {

/// The page size of a search that asks for none.
pub fn default_page_size() -> (size: i64)
    ensures
        size == 50,
{
    50
}

/// The parameters of a search, as they come in a query string such as
/// `?q=marian&include_total=true` or `?page_size=20&sort=-name`.
#[derive(Debug, Clone, PartialEq, Eq)]
pub struct QuerySearch {
    /// Free text to search for.
    pub q: Option<String>,
    /// Fields to sort by, separated by commas; a field that starts with `-`
    /// is sorted in descending order.
    pub sort: Option<String>,
    /// Position of the first result to return; not negative.
    pub offset: i64,
    /// How many results to return at most; at least one.
    pub page_size: i64,
    /// Whether the size of the full list of results is wanted.
    pub include_total: Option<bool>,
}

/// The flag of a request that can be forced, which is set to true or to
/// false, or not set at all.
#[derive(Debug, Clone)]
pub struct Force {
    pub force: Option<bool>,
}

/// What follows a field that is sorted in descending order: `" DESC"`.
pub open spec fn desc_suffix() -> Seq<char> {
    seq![' ', 'D', 'E', 'S', 'C']
}

/// What stands between two sorting arguments: `", "`.
pub open spec fn args_separator() -> Seq<char> {
    seq![',', ' ']
}

/// The terms of a comma-separated list, from left to right: a comma closes
/// a term and opens the next, any other character belongs to the term that
/// is open. A text with `n` commas has `n + 1` terms, some of which may be
/// empty. `lemma_split_terms_rejoin` states the same from the result's side.
pub open spec fn split_terms(list: Seq<char>) -> Seq<Seq<char>>
    decreases list.len(),
{
    if list.len() == 0 {
        seq![Seq::empty()]
    } else {
        let before = split_terms(list.drop_last());
        if list.last() == ',' {
            before.push(Seq::empty())
        } else {
            before.drop_last().push(before.last().push(list.last()))
        }
    }
}

/// Whether the term asks for descending order: it starts with `-`.
pub open spec fn is_descending(term: Seq<char>) -> bool {
    term.len() > 0 && term[0] == '-'
}

/// The field that a term names: the term without the `-` it may start with.
/// Only one `-` is taken off.
pub open spec fn term_field(term: Seq<char>) -> Seq<char> {
    if is_descending(term) {
        term.skip(1)
    } else {
        term
    }
}

/// The sorting argument for a term: its field, followed by `" DESC"` if and
/// only if the term asks for descending order.
pub open spec fn sort_arg(term: Seq<char>) -> Seq<char> {
    if is_descending(term) {
        term_field(term) + desc_suffix()
    } else {
        term
    }
}

/// The test that keeps the terms whose field is one of `allowed`.
pub open spec fn names_allowed(allowed: Seq<Seq<char>>) -> spec_fn(Seq<char>) -> bool {
    |term: Seq<char>| allowed.contains(term_field(term))
}

/// The sorting arguments of a list of terms: the terms that name an allowed
/// field, in the order of the list, each as its sorting argument.
pub open spec fn sort_args(terms: Seq<Seq<char>>, allowed: Seq<Seq<char>>) -> Seq<Seq<char>> {
    terms.filter(names_allowed(allowed)).map_values(|term: Seq<char>| sort_arg(term))
}

/// The sorting arguments that a `sort` parameter stands for.
pub open spec fn parsed_sort(sort: Seq<char>, allowed: Seq<Seq<char>>) -> Seq<Seq<char>> {
    sort_args(split_terms(sort), allowed)
}

/// The `ORDER BY` arguments that a `sort` parameter stands for: its sorting
/// arguments separated by `", "`, or `default` when there are none.
pub open spec fn order_by_args(sort: Seq<char>, allowed: Seq<Seq<char>>, default: Seq<char>) -> Seq<
    char,
> {
    if parsed_sort(sort, allowed).len() == 0 {
        default
    } else {
        join(parsed_sort(sort, allowed), args_separator())
    }
}

/// One more term at the end of a list adds its sorting argument at the end
/// if it names an allowed field, and nothing otherwise.
proof fn lemma_sort_args_push(terms: Seq<Seq<char>>, term: Seq<char>, allowed: Seq<Seq<char>>)
    ensures
        sort_args(terms.push(term), allowed) == if allowed.contains(term_field(term)) {
            sort_args(terms, allowed).push(sort_arg(term))
        } else {
            sort_args(terms, allowed)
        },
{
    let keep = names_allowed(allowed);
    assert(terms.push(term).drop_last() == terms);
    assert(terms.push(term).filter(keep) == if keep(term) {
        terms.filter(keep).push(term)
    } else {
        terms.filter(keep)
    }) by {
        reveal(Seq::filter);
    }
}

/// Splitting loses nothing and cuts at every comma: the terms of a list,
/// joined again with commas, are the list, and no term holds a comma.
pub proof fn lemma_split_terms_rejoin(list: Seq<char>)
    ensures
        split_terms(list).len() >= 1,
        join(split_terms(list), seq![',']) == list,
        forall|i: int|
            0 <= i < split_terms(list).len() ==> !(#[trigger] split_terms(list)[i]).contains(','),
    decreases list.len(),
{
    if list.len() > 0 {
        let before = split_terms(list.drop_last());
        let terms = split_terms(list);
        lemma_split_terms_rejoin(list.drop_last());
        if list.last() == ',' {
            assert(terms.drop_last() == before);
        } else {
            assert(terms.drop_last() == before.drop_last());
            if before.len() > 1 {
                assert(join(before.drop_last(), seq![',']) + seq![','] + before.last().push(
                    list.last(),
                ) == (join(before.drop_last(), seq![',']) + seq![','] + before.last()).push(
                    list.last(),
                ));
            }
        }
    }
}

/// A text without a comma is one term.
pub proof fn lemma_split_terms_single(term: Seq<char>)
    requires
        !term.contains(','),
    ensures
        split_terms(term) == seq![term],
    decreases term.len(),
{
    if term.len() > 0 {
        assert forall|i: int| 0 <= i < term.drop_last().len() implies term.drop_last()[i]
            != ',' by {}
        lemma_split_terms_single(term.drop_last());
        assert(term.drop_last().push(term.last()) == term);
    } else {
        assert(term == Seq::<char>::empty());
    }
}

/// A list made of two lists with a comma between them has the terms of the
/// first followed by the terms of the second.
pub proof fn lemma_split_terms_concat(first: Seq<char>, second: Seq<char>)
    ensures
        split_terms(first + seq![','] + second) == split_terms(first) + split_terms(second),
    decreases second.len(),
{
    let whole = first + seq![','] + second;
    lemma_split_terms_rejoin(second);
    if second.len() == 0 {
        assert(whole.drop_last() == first);
    } else {
        lemma_split_terms_concat(first, second.drop_last());
        lemma_split_terms_rejoin(second.drop_last());
        assert(whole.drop_last() == first + seq![','] + second.drop_last());
    }
}

/// A parameter without a comma names one field. It stands for one sorting
/// argument if the field is allowed, and for none otherwise.
pub proof fn lemma_parsed_sort_single(term: Seq<char>, allowed: Seq<Seq<char>>)
    requires
        !term.contains(','),
    ensures
        parsed_sort(term, allowed) == if allowed.contains(term_field(term)) {
            seq![sort_arg(term)]
        } else {
            Seq::empty()
        },
{
    lemma_split_terms_single(term);
    assert(sort_args(Seq::empty(), allowed) == Seq::<Seq<char>>::empty()) by {
        reveal(Seq::filter);
    }
    lemma_sort_args_push(Seq::empty(), term, allowed);
}

/// Sorting arguments keep the order of the parameter: what a parameter made
/// of two lists with a comma between them stands for is what the first
/// stands for, followed by what the second stands for.
pub proof fn lemma_parsed_sort_concat(first: Seq<char>, second: Seq<char>, allowed: Seq<Seq<char>>)
    ensures
        parsed_sort(first + seq![','] + second, allowed) == parsed_sort(first, allowed)
            + parsed_sort(second, allowed),
{
    let keep = names_allowed(allowed);
    lemma_split_terms_concat(first, second);
    Seq::filter_distributes_over_add(split_terms(first), split_terms(second), keep);
}

/// Every sorting argument names an allowed field: it is such a field as it
/// is written in `allowed`, alone or followed by `" DESC"`.
pub proof fn lemma_sort_args_name_allowed(terms: Seq<Seq<char>>, allowed: Seq<Seq<char>>, i: int)
    requires
        0 <= i < sort_args(terms, allowed).len(),
    ensures
        exists|field: Seq<char>| #[trigger]
            allowed.contains(field) && (sort_args(terms, allowed)[i] == field || sort_args(
                terms,
                allowed,
            )[i] == field + desc_suffix()),
{
    terms.lemma_filter_pred(names_allowed(allowed), i);
}

/// No term that names an allowed field is lost: its sorting argument is
/// among the sorting arguments of the list.
pub proof fn lemma_sort_args_keep_allowed(terms: Seq<Seq<char>>, allowed: Seq<Seq<char>>, j: int)
    requires
        0 <= j < terms.len(),
        allowed.contains(term_field(terms[j])),
    ensures
        sort_args(terms, allowed).contains(sort_arg(terms[j])),
{
    let keep = names_allowed(allowed);
    let kept = terms.filter(keep);
    terms.lemma_filter_contains(keep, j);
    let i = choose|i: int| 0 <= i < kept.len() && kept[i] == terms[j];
    assert(sort_args(terms, allowed)[i] == sort_arg(terms[j]));
}

/// A term is left out exactly when its field is not allowed: the number of
/// sorting arguments is the number of terms that name an allowed field.
pub proof fn lemma_sort_args_len(terms: Seq<Seq<char>>, allowed: Seq<Seq<char>>)
    ensures
        sort_args(terms, allowed).len() <= terms.len(),
        sort_args(terms, allowed).len() == terms.len() <==> forall|j: int|
            0 <= j < terms.len() ==> allowed.contains(term_field(#[trigger] terms[j])),
    decreases terms.len(),
{
    let keep = names_allowed(allowed);
    reveal(Seq::filter);
    if terms.len() > 0 {
        lemma_sort_args_len(terms.drop_last(), allowed);
        if sort_args(terms, allowed).len() == terms.len() {
            assert forall|j: int| 0 <= j < terms.len() implies allowed.contains(
                term_field(#[trigger] terms[j]),
            ) by {
                if j < terms.len() - 1 {
                    assert(terms.drop_last()[j] == terms[j]);
                }
            }
        }
        if forall|j: int| 0 <= j < terms.len() ==> allowed.contains(term_field(#[trigger] terms[j])) {
            assert forall|j: int| 0 <= j < terms.drop_last().len() implies allowed.contains(
                term_field(#[trigger] terms.drop_last()[j]),
            ) by {}
        }
    }
}

impl QuerySearch {
    /// The text of the `sort` parameter; empty when there is none.
    pub open spec fn sort_text(&self) -> Seq<char> {
        match self.sort {
            Some(sort) => sort@,
            None => Seq::empty(),
        }
    }

    /// Whether `offset` and `page_size` are in their ranges.
    pub open spec fn in_range(&self) -> bool {
        self.offset >= 0 && self.page_size >= 1
    }

    /// Tells whether `offset` is not negative and `page_size` is at least
    /// one.
    pub fn is_in_range(&self) -> (ok: bool)
        ensures
            ok == self.in_range(),
    {
        self.offset >= 0 && self.page_size >= 1
    }

    /// Turns the `sort` parameter, such as `"col1,col2,-col3"`, into sorting
    /// arguments. A field that is not one of `allowed_fields` is left out,
    /// the others keep their order, and a field that starts with `-` gets
    /// the keyword for descending order: `"-name"` becomes `"name DESC"`.
    pub fn parse_sort(&self, allowed_fields: &[&str]) -> (parsed: Vec<String>)
        ensures
            texts(parsed@) == parsed_sort(self.sort_text(), slice_texts(allowed_fields@)),
    {
        let sort: &str = match &self.sort {
            Some(sort) => sort.as_str(),
            None => "",
        };
        proof {
            reveal_strlit("");
            reveal_strlit(" DESC");
        }
        let ghost allowed = slice_texts(allowed_fields@);
        let mut parsed: Vec<String> = Vec::new();
        // The open term: whether it started with `-`, and what follows.
        let mut descending = false;
        let mut blank = true;
        let mut field = String::new();
        assert(texts(parsed@) == sort_args(Seq::empty(), allowed)) by {
            reveal(Seq::filter);
        }
        for c in chars: sort.chars()
            invariant
                chars.seq() == sort@,
                allowed == slice_texts(allowed_fields@),
                " DESC"@ == desc_suffix(),
                split_terms(sort@.take(chars.index())).len() > 0,
                texts(parsed@) == sort_args(
                    split_terms(sort@.take(chars.index())).drop_last(),
                    allowed,
                ),
                split_terms(sort@.take(chars.index())).last() == if descending {
                    seq!['-'] + field@
                } else {
                    field@
                },
                blank == (split_terms(sort@.take(chars.index())).last().len() == 0),
                !descending ==> !is_descending(field@),
        {
            let ghost seen = sort@.take(chars.index());
            let ghost terms = split_terms(seen);
            proof {
                assert(sort@.take(chars.index() + 1).drop_last() == seen);
            }
            if c == ',' {
                proof {
                    lemma_sort_args_push(terms.drop_last(), terms.last(), allowed);
                    assert(terms.push(Seq::empty()).drop_last() == terms);
                    assert(terms.drop_last().push(terms.last()) == terms);
                    if descending {
                        assert((seq!['-'] + field@).skip(1) == field@);
                    }
                }
                if is_one_of(field.as_str(), allowed_fields) {
                    if descending {
                        field.append(" DESC");
                    }
                    parsed.push(field);
                }
                descending = false;
                blank = true;
                field = String::new();
            } else if blank && c == '-' {
                descending = true;
                blank = false;
                proof {
                    assert(terms.drop_last().push(terms.last().push(c)).drop_last()
                        == terms.drop_last());
                }
            } else {
                field.push(c);
                blank = false;
                proof {
                    assert(terms.drop_last().push(terms.last().push(c)).drop_last()
                        == terms.drop_last());
                }
            }
        }
        let ghost terms = split_terms(sort@);
        proof {
            assert(sort@.take(sort@.len() as int) == sort@);
            lemma_sort_args_push(terms.drop_last(), terms.last(), allowed);
            assert(terms.drop_last().push(terms.last()) == terms);
            if descending {
                assert((seq!['-'] + field@).skip(1) == field@);
            }
        }
        if is_one_of(field.as_str(), allowed_fields) {
            if descending {
                field.append(" DESC");
            }
            parsed.push(field);
        }
        parsed
    }

    /// Turns the `sort` parameter into the arguments of an SQL `ORDER BY`:
    /// `"name,-age"` becomes `"name, age DESC"`. When the parameter names no
    /// allowed field the result is `default`, taken as it is.
    pub fn sort_as_order_by_args(&self, allowed_fields: &[&str], default: &str) -> (args: String)
        ensures
            args@ == order_by_args(self.sort_text(), slice_texts(allowed_fields@), default@),
    {
        let sorting = self.parse_sort(allowed_fields);
        if sorting.len() == 0 {
            String::from_str(default)
        } else {
            proof {
                reveal_strlit(", ");
                assert(", "@ == args_separator());
            }
            join_strings(&sorting, ", ")
        }
    }
}

} // verus!
