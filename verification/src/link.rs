//! The `Link` header: which entry points to the next page and which to the
//! previous one.
//!
//! Whether a header is well formed, and what the targets of its entries
//! are, is what `hyperx` makes of it. The relation names are read from the
//! header itself, since the parser does not keep a registered name as it
//! was written: an entry points to the next page only where its `rel`
//! parameter holds `next` in exactly these letters.

use crate::error::DecodeError;
use crate::http::text_of;
use crate::relation::{
    chars_of, edge, has_word, holds_word, plain, single_name_is_matched_whole, usual_header,
    usual_header_is_read_as_written, values, written, written_relations,
};
use vstd::prelude::*;

verus! {

/// The texts of a list of strings.
pub open spec fn texts(list: Seq<String>) -> Seq<Seq<char>> {
    Seq::new(list.len(), |i: int| list[i]@)
}

/// What `hyperx` reads from the value of a `Link` header: the targets of its
/// entries in order, or `None` where it refuses the header.
pub uninterp spec fn link_targets(header: Seq<char>) -> Option<Seq<Seq<char>>>;

/// `str::parse::<hyperx::header::Link>`, with the target of each entry
/// handed out through `Link::values` and `LinkValue::link`. The outcome
/// depends on the header alone; the contract gives it the name
/// `link_targets`.
#[verifier::external_body]
fn parse_link(header: &str) -> (r: Option<Vec<String>>)
    ensures
        match r {
            Some(targets) => link_targets(header@) == Some(texts(targets@)),
            None => link_targets(header@) is None,
        },
{
    match header.parse::<hyperx::header::Link>() {
        Ok(link) => Some(link.values().iter().map(|v| v.link().to_string()).collect()),
        Err(_) => None,
    }
}

/// The previous and the next page of a response, as far as its `Link` header
/// names them.
#[derive(Clone, Debug)]
pub struct Cursors {
    pub prev: Option<String>,
    pub next: Option<String>,
}

/// The entry has the relation `name`: its `rel` parameter, as written,
/// holds `name` as a word, letter by letter.
pub open spec fn tagged(relation: Option<Seq<char>>, name: Seq<char>) -> bool {
    relation matches Some(value) && has_word(value, name)
}

/// The target of the last of the first `n` entries that has the relation
/// `name`; `None` where none of them has it.
pub open spec fn cursor_among(
    targets: Seq<Seq<char>>,
    relations: Seq<Option<Seq<char>>>,
    name: Seq<char>,
    n: int,
) -> Option<Seq<char>>
    decreases n,
{
    if n <= 0 {
        None
    } else if tagged(relations[n - 1], name) {
        Some(targets[n - 1])
    } else {
        cursor_among(targets, relations, name, n - 1)
    }
}

/// The target of the last entry that has the relation `name`; `None` where
/// no entry has it.
pub open spec fn cursor(
    targets: Seq<Seq<char>>,
    relations: Seq<Option<Seq<char>>>,
    name: Seq<char>,
) -> Option<Seq<char>> {
    cursor_among(targets, relations, name, targets.len() as int)
}

/// Every target has an entry as written, and every entry has a `rel`
/// parameter.
pub open spec fn paired(targets: Seq<Seq<char>>, relations: Seq<Option<Seq<char>>>) -> bool {
    &&& targets.len() == relations.len()
    &&& forall|i: int| 0 <= i < relations.len() ==> (#[trigger] relations[i]) is Some
}

/// A header names a cursor exactly where one of its entries has the
/// relation, and the cursor is the target of such an entry.
pub proof fn cursor_is_a_tagged_target(
    targets: Seq<Seq<char>>,
    relations: Seq<Option<Seq<char>>>,
    name: Seq<char>,
    n: int,
)
    requires
        0 <= n <= targets.len(),
        targets.len() == relations.len(),
    ensures
        cursor_among(targets, relations, name, n) is None <==> forall|i: int|
            0 <= i < n ==> !tagged(#[trigger] relations[i], name),
        cursor_among(targets, relations, name, n) matches Some(url) ==> exists|i: int|
            0 <= i < n && tagged(#[trigger] relations[i], name) && targets[i] == url,
    decreases n,
{
    if n > 0 {
        cursor_is_a_tagged_target(targets, relations, name, n - 1);
        if tagged(relations[n - 1], name) {
        } else if cursor_among(targets, relations, name, n - 1) is Some {
            let url = cursor_among(targets, relations, name, n - 1)->0;
            let i = choose|i: int|
                0 <= i < n - 1 && tagged(#[trigger] relations[i], name) && targets[i] == url;
            assert(tagged(relations[i], name) && targets[i] == url);
        }
    }
}

/// In a header of the usual form, an entry whose `rel` parameter holds one
/// name has the relation `name` exactly where that name is `name`, letter
/// by letter: `NEXT` is not `next`.
pub proof fn usual_entry_is_tagged_by_its_name(
    list: Seq<(Seq<char>, Seq<char>)>,
    i: int,
    name: Seq<char>,
)
    requires
        0 <= i < list.len(),
        name.len() > 0,
        forall|j: int, k: int|
            0 <= j < list.len() && 0 <= k < list[j].0.len() ==> plain(#[trigger] list[j].0[k]),
        forall|j: int, k: int|
            0 <= j < list.len() && 0 <= k < list[j].1.len() ==> (#[trigger] list[j].1[k]) != '"',
        forall|k: int| 0 <= k < list[i].1.len() ==> !edge(#[trigger] list[i].1[k]),
        forall|k: int| 0 <= k < name.len() ==> !edge(#[trigger] name[k]),
    ensures
        written(usual_header(list)).len() == list.len(),
        tagged(written(usual_header(list))[i], name) <==> list[i].1 == name,
{
    usual_header_is_read_as_written(list);
    single_name_is_matched_whole(list[i].1, name);
}

/// Picks the cursors out of the entries of a `Link` header: their targets,
/// and for each the value of its `rel` parameter as written. An entry with
/// other relations than `next` and `prev` is passed over. A target without
/// an entry as written, or an entry without any `rel` parameter, makes the
/// whole header malformed.
pub fn cursors(targets: &Vec<String>, relations: &Vec<Option<Vec<char>>>) -> (r: Result<
    Cursors,
    DecodeError,
>)
    ensures
        match r {
            Ok(c) => paired(texts(targets@), values(relations@)) && text_of(c.next) == cursor(
                texts(targets@),
                values(relations@),
                "next"@,
            ) && text_of(c.prev) == cursor(texts(targets@), values(relations@), "prev"@),
            Err(e) => !paired(texts(targets@), values(relations@)) && e == DecodeError::Link,
        },
{
    if targets.len() != relations.len() {
        return Err(DecodeError::Link);
    }
    let wanted_next = chars_of("next");
    let wanted_prev = chars_of("prev");
    let ghost links = texts(targets@);
    let ghost rels = values(relations@);
    let mut next: Option<String> = None;
    let mut prev: Option<String> = None;
    let mut i: usize = 0;
    while i < targets.len()
        invariant
            i <= targets.len(),
            targets.len() == relations.len(),
            links == texts(targets@),
            rels == values(relations@),
            wanted_next@ == "next"@,
            wanted_prev@ == "prev"@,
            forall|k: int| 0 <= k < i ==> (#[trigger] rels[k]) is Some,
            text_of(next) == cursor_among(links, rels, "next"@, i as int),
            text_of(prev) == cursor_among(links, rels, "prev"@, i as int),
        decreases targets.len() - i,
    {
        match &relations[i] {
            Some(value) => {
                assert(rels[i as int] == Some(value@));
                assert(links[i as int] == targets@[i as int]@);
                if holds_word(value, &wanted_next) {
                    next = Some(targets[i].clone());
                }
                if holds_word(value, &wanted_prev) {
                    prev = Some(targets[i].clone());
                }
            },
            None => {
                assert(rels[i as int] is None);
                return Err(DecodeError::Link);
            },
        }
        i = i + 1;
    }
    Ok(Cursors { prev, next })
}

/// The cursors that a `Link` header names: the targets are those that
/// `hyperx` reads from it, the relations those that are written in it.
/// `None` where the header is malformed.
pub open spec fn header_cursors(header: Seq<char>) -> Option<
    (Option<Seq<char>>, Option<Seq<char>>),
> {
    match link_targets(header) {
        Some(targets) => if paired(targets, written(header)) {
            Some(
                (
                    cursor(targets, written(header), "prev"@),
                    cursor(targets, written(header), "next"@),
                ),
            )
        } else {
            None
        },
        None => None,
    }
}

/// Reads the cursors from the value of a `Link` header. A header that the
/// parser refuses, or with an entry that has no `rel` parameter, is
/// malformed as a whole.
pub fn parse_cursors(header: &str) -> (r: Result<Cursors, DecodeError>)
    ensures
        match r {
            Ok(c) => header_cursors(header@) == Some((text_of(c.prev), text_of(c.next))),
            Err(e) => header_cursors(header@) is None && e == DecodeError::Link,
        },
{
    match parse_link(header) {
        Some(targets) => {
            let relations = written_relations(header);
            cursors(&targets, &relations)
        },
        None => Err(DecodeError::Link),
    }
}

} // verus!
