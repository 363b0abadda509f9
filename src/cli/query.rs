//! Extraction of a single field from the tabular board listing of the Arduino CLI (the output of
//! `arduino-cli board list`): a header line, then one line per connected board with the fields
//! FQBN, port, id and board name, separated by tabs.

use vstd::prelude::*;
use super::{Error, text_result};
use super::text::{is_blank, is_white_space, lines_of, seqs_of, split_on};
use super::text::{chars_of, lines_of_chars, split_chars, strip_cr};
use super::text::{lemma_split_after_sep, lemma_split_without_sep, lemma_strip_cr_not_blank};

verus! {

/// Items that the Arduino CLI can be queried for, in the order of their columns.
#[derive(Clone, Copy, PartialEq, Eq, Debug, Structural)]
pub enum Query {
    Fqbn,
    Port,
    Id,
    BoardName,
}

/// The column of a board entry that holds the queried item.
pub open spec fn column_of(query: Query) -> int {
    match query {
        Query::Fqbn => 0,
        Query::Port => 1,
        Query::Id => 2,
        Query::BoardName => 3,
    }
}

/// The number of fields of a board entry.
pub const FIELD_COUNT: usize = 4;

/// The lines of a listing after its header line.
pub open spec fn rows_of(listing: Seq<char>) -> Seq<Seq<char>> {
    let lines = lines_of(listing);
    if lines.len() == 0 {
        lines
    } else {
        lines.drop_first()
    }
}

/// The rows that are not blank, in order.
pub open spec fn non_blank(rows: Seq<Seq<char>>) -> Seq<Seq<char>>
    decreases rows.len(),
{
    if rows.len() == 0 {
        Seq::empty()
    } else if is_blank(rows.last()) {
        non_blank(rows.drop_last())
    } else {
        non_blank(rows.drop_last()).push(rows.last())
    }
}

/// The queried item of a board entry: `UnexpectedSyntax` unless the entry has exactly four
/// tab-separated fields, `MissingCore` where its FQBN field is blank.
pub open spec fn entry_outcome(query: Query, entry: Seq<char>) -> Result<Seq<char>, Error> {
    let fields = split_on(entry, '\t');
    if fields.len() != FIELD_COUNT {
        Err(Error::UnexpectedSyntax)
    } else if is_blank(fields[0]) {
        Err(Error::MissingCore)
    } else {
        Ok(fields[column_of(query)])
    }
}

/// The queried item of a listing: `NoDevice` where no row is non-blank, `MultipleDevices` where
/// more than one is, and otherwise the item of the single board entry.
pub open spec fn list_outcome(query: Query, listing: Seq<char>) -> Result<Seq<char>, Error> {
    let entries = non_blank(rows_of(listing));
    if entries.len() == 0 {
        Err(Error::NoDevice)
    } else if entries.len() > 1 {
        Err(Error::MultipleDevices)
    } else {
        entry_outcome(query, entries[0])
    }
}

proof fn lemma_non_blank_prefix(rows: Seq<Seq<char>>, k: int)
    requires
        0 <= k <= rows.len(),
    ensures
        non_blank(rows.take(k)).len() <= non_blank(rows).len(),
    decreases rows.len(),
{
    if k < rows.len() {
        assert(rows.drop_last().take(k) == rows.take(k));
        lemma_non_blank_prefix(rows.drop_last(), k);
    } else {
        assert(rows.take(k) == rows);
    }
}

/// How a tabular listing is read, for any header line and any board entries `first` and
/// `second` (each on one line, none blank): the header alone, with or without a line end, means
/// `NoDevice`; a header and one entry give that entry's item, so `UnexpectedSyntax` for an entry
/// without exactly four fields and `MissingCore` for one with an empty FQBN; a header and two
/// entries mean `MultipleDevices`.
pub proof fn lemma_tabular_listing(
    query: Query,
    header: Seq<char>,
    first: Seq<char>,
    second: Seq<char>,
)
    requires
        !header.contains('\n'),
        !first.contains('\n'),
        !second.contains('\n'),
        !is_blank(first),
        !is_blank(second),
    ensures
        list_outcome(query, header) == Err::<Seq<char>, Error>(Error::NoDevice),
        list_outcome(query, header + seq!['\n']) == Err::<Seq<char>, Error>(Error::NoDevice),
        list_outcome(query, header + seq!['\n'] + first) == entry_outcome(query, first),
        split_on(first, '\t').len() != FIELD_COUNT ==> list_outcome(
            query,
            header + seq!['\n'] + first,
        ) == Err::<Seq<char>, Error>(Error::UnexpectedSyntax),
        split_on(first, '\t').len() == FIELD_COUNT && split_on(first, '\t')[0].len() == 0
            ==> list_outcome(query, header + seq!['\n'] + first) == Err::<Seq<char>, Error>(
            Error::MissingCore,
        ),
        list_outcome(query, header + seq!['\n'] + first + seq!['\n'] + second) == Err::<
            Seq<char>,
            Error,
        >(Error::MultipleDevices),
{
    let empty = Seq::<char>::empty();
    // the header alone
    lemma_split_without_sep(header, '\n');
    assert(seq![header].drop_last().map_values(|l: Seq<char>| strip_cr(l)) == Seq::<
        Seq<char>,
    >::empty());
    if header.len() > 0 {
        assert(lines_of(header) == seq![header]);
    }
    assert(non_blank(Seq::<Seq<char>>::empty()) == Seq::<Seq<char>>::empty());
    // the header and a line end
    lemma_split_after_sep(header, empty, '\n');
    assert(header + seq!['\n'] + empty == header + seq!['\n']);
    assert(split_on(empty, '\n') == seq![empty]);
    assert(seq![header] + seq![empty] == seq![header, empty]);
    assert(seq![header, empty].drop_last().map_values(|l: Seq<char>| strip_cr(l)) == seq![
        strip_cr(header),
    ]);
    assert(rows_of(header + seq!['\n']) == Seq::<Seq<char>>::empty());
    // the header and one entry
    lemma_split_after_sep(header, first, '\n');
    lemma_split_without_sep(first, '\n');
    assert(seq![header] + seq![first] == seq![header, first]);
    assert(seq![header, first].drop_last().map_values(|l: Seq<char>| strip_cr(l)) == seq![
        strip_cr(header),
    ]);
    assert(first.len() > 0) by {
        assert(!is_blank(first));
    }
    assert(lines_of(header + seq!['\n'] + first) == seq![strip_cr(header), first]);
    assert(rows_of(header + seq!['\n'] + first) == seq![first]);
    assert(seq![first].drop_last() == Seq::<Seq<char>>::empty());
    assert(non_blank(seq![first]) == seq![first]);
    if split_on(first, '\t').len() == FIELD_COUNT && split_on(first, '\t')[0].len() == 0 {
        assert(is_blank(split_on(first, '\t')[0]));
    }
    // the header and two entries
    let rest = first + seq!['\n'] + second;
    assert(header + seq!['\n'] + first + seq!['\n'] + second == header + seq!['\n'] + rest);
    lemma_split_after_sep(header, rest, '\n');
    lemma_split_after_sep(first, second, '\n');
    lemma_split_without_sep(second, '\n');
    let pieces = seq![header, first, second];
    assert(seq![header] + (seq![first] + seq![second]) == pieces);
    assert(pieces.drop_last().map_values(|l: Seq<char>| strip_cr(l)) == seq![
        strip_cr(header),
        strip_cr(first),
    ]);
    assert(second.len() > 0) by {
        assert(!is_blank(second));
    }
    let rows = seq![strip_cr(first), second];
    assert(lines_of(header + seq!['\n'] + rest) == seq![strip_cr(header), strip_cr(first), second]);
    assert(rows_of(header + seq!['\n'] + rest) == rows);
    lemma_strip_cr_not_blank(first);
    assert(rows.drop_last() == seq![strip_cr(first)]);
    assert(seq![strip_cr(first)].drop_last() == Seq::<Seq<char>>::empty());
    assert(non_blank(seq![strip_cr(first)]) == seq![strip_cr(first)]);
    assert(non_blank(rows).len() == 2);
}

/// Relies on `Regex::new` and `Regex::is_match` of the regex crate: the pattern `^\s*$`, in
/// which `\s` is the Unicode property White_Space and `^`, `$` anchor at the ends of the text,
/// matches exactly the texts made of white space alone.
#[verifier::external_body]
fn is_blank_line(line: &str) -> (r: bool)
    ensures
        r == is_blank(line@),
{
    regex::Regex::new(r"^\s*$").unwrap().is_match(line)
}

/// Relies on `String`'s `FromIterator<&char>`: the characters, in order, make the text.
#[verifier::external_body]
fn string_from_chars(chars: &Vec<char>) -> (r: String)
    ensures
        r@ == chars@,
{
    chars.iter().collect()
}

impl Query {
    /// The column of a board entry that holds the queried item.
    pub fn column(&self) -> (c: usize)
        ensures
            c == column_of(*self),
    {
        match self {
            Query::Fqbn => 0,
            Query::Port => 1,
            Query::Id => 2,
            Query::BoardName => 3,
        }
    }
}

/// Extracts a given query item from a board entry of the tabular board listing, whose format is
/// `<fqbn>\t<port>\t<id>\t<board name>`.
pub fn query_from_board_entry(query: Query, board_entry: &str) -> (r: Result<String, Error>)
    ensures
        text_result(r) == entry_outcome(query, board_entry@),
{
    let chars = chars_of(board_entry);
    let fields = split_chars(&chars, '\t');
    if fields.len() != FIELD_COUNT {
        return Err(Error::UnexpectedSyntax);
    }
    proof {
        assert(fields@[0]@ == split_on(board_entry@, '\t')[0]);
        assert(fields@[column_of(query)]@ == split_on(board_entry@, '\t')[column_of(query)]);
    }
    let fqbn = string_from_chars(&fields[0]);
    if is_blank_line(fqbn.as_str()) {
        return Err(Error::MissingCore);
    }
    Ok(string_from_chars(&fields[query.column()]))
}

/// Extracts a given query item from the tabular board listing. The first line is the header;
/// every later line that is not blank is the entry of one connected board.
pub fn query_from_board_list(query: Query, board_list: &str) -> (r: Result<String, Error>)
    ensures
        text_result(r) == list_outcome(query, board_list@),
{
    let chars = chars_of(board_list);
    let lines = lines_of_chars(&chars);
    let ghost rows = rows_of(board_list@);
    let mut board_entry: Option<String> = None;
    if lines.len() == 0 {
        return Err(Error::NoDevice);
    }
    proof {
        assert(rows == seqs_of(lines@).drop_first());
    }
    let mut i: usize = 1;
    while i < lines.len()
        invariant
            1 <= i <= lines@.len(),
            rows == seqs_of(lines@).drop_first(),
            rows == rows_of(board_list@),
            non_blank(rows.take(i - 1)).len() <= 1,
            board_entry is None <==> non_blank(rows.take(i - 1)).len() == 0,
            board_entry matches Some(e) ==> e@ == non_blank(rows.take(i - 1))[0],
        decreases lines@.len() - i,
    {
        let line = string_from_chars(&lines[i]);
        proof {
            let t = rows.take(i as int);
            assert(t.drop_last() == rows.take(i - 1));
            assert(t.last() == line@);
        }
        if !is_blank_line(line.as_str()) {
            if board_entry.is_none() {
                board_entry = Some(line);
            } else {
                proof {
                    let t = rows.take(i as int);
                    assert(non_blank(t) == non_blank(rows.take(i - 1)).push(line@));
                    lemma_non_blank_prefix(rows, i as int);
                }
                return Err(Error::MultipleDevices);
            }
        }
        i = i + 1;
    }
    proof {
        assert(rows.take(i - 1) == rows);
    }
    match board_entry {
        Some(entry) => query_from_board_entry(query, entry.as_str()),
        None => Err(Error::NoDevice),
    }
}

} // verus!
