//! The parameters of a query string.

use crate::misc::text::{same_text, split, split_text};
use vstd::prelude::*;

verus! {

/// What a required parameter's absence is reported as.
#[derive(Debug, PartialEq, Eq)]
pub enum ParseParamError<'a> {
    FieldRequired { name: &'a str },
}

/// Key and value of a piece of a query string: what stands before its first
/// `=`, and what stands between that and its second `=` or its end. A piece
/// without `=` is no pair.
pub open spec fn pair_of(piece: Seq<char>) -> Option<(Seq<char>, Seq<char>)> {
    let parts = split(piece, '=');
    if parts.len() >= 2 {
        Some((parts[0], parts[1]))
    } else {
        None
    }
}

/// The pairs among `pieces`, in order.
pub open spec fn pairs_of(pieces: Seq<Seq<char>>) -> Seq<(Seq<char>, Seq<char>)>
    decreases pieces.len(),
{
    if pieces.len() == 0 {
        Seq::empty()
    } else {
        let before = pairs_of(pieces.drop_last());
        match pair_of(pieces.last()) {
            Some(pair) => before.push(pair),
            None => before,
        }
    }
}

/// The pairs of a query string: those of its pieces between `&`.
pub open spec fn query_pairs(query: Seq<char>) -> Seq<(Seq<char>, Seq<char>)> {
    pairs_of(split(query, '&'))
}

/// The value of the first pair whose key is `name`.
pub open spec fn first_value(pairs: Seq<(Seq<char>, Seq<char>)>, name: Seq<char>) -> Option<
    Seq<char>,
>
    decreases pairs.len(),
{
    if pairs.len() == 0 {
        None
    } else if pairs[0].0 == name {
        Some(pairs[0].1)
    } else {
        first_value(pairs.drop_first(), name)
    }
}

/// What percent-decoding makes of `text`: the text with each `%xx` replaced
/// by the byte it stands for, read as UTF-8; `None` where the bytes are no
/// UTF-8.
pub uninterp spec fn percent_decoded(text: Seq<char>) -> Option<Seq<char>>;

/// Calls `querystring::querify`, which cuts the query at each `&` and each
/// piece at `=`, keeps the first two parts of a piece as key and value, and
/// skips a piece without `=`.
#[verifier::external_body]
fn querify<'a>(query: &'a str) -> (pairs: Vec<(&'a str, &'a str)>)
    ensures
        pairs.deep_view() == query_pairs(query@),
{
    querystring::querify(query)
}

/// Calls `urlencoding::decode` and drops its error. The contract gives the
/// result its name, and says the one thing that the function's first lines
/// show: a text without `%` comes back as it is.
#[verifier::external_body]
fn decode(text: &str) -> (decoded: Option<String>)
    ensures
        decoded.deep_view() == percent_decoded(text@),
        !text@.contains('%') ==> decoded.deep_view() == Some(text@),
{
    match urlencoding::decode(text) {
        Ok(decoded) => Some(decoded.into_owned()),
        Err(_) => None,
    }
}

/// The pairs of a query string, as they were written.
#[derive(Debug, PartialEq, Eq)]
pub struct QueryParams<'a> {
    vec: Vec<(&'a str, &'a str)>,
}

impl<'a> View for QueryParams<'a> {
    type V = Seq<(Seq<char>, Seq<char>)>;

    closed spec fn view(&self) -> Seq<(Seq<char>, Seq<char>)> {
        self.vec.deep_view()
    }
}

/// The decoded value of the first pair whose key is `name`.
pub open spec fn value_of(pairs: Seq<(Seq<char>, Seq<char>)>, name: Seq<char>) -> Option<
    Seq<char>,
> {
    match first_value(pairs, name) {
        Some(value) => percent_decoded(value),
        None => None,
    }
}

/// The pieces, between commas, of the decoded value of the first pair whose
/// key is `name`; no pieces where there is no such value.
pub open spec fn list_of(pairs: Seq<(Seq<char>, Seq<char>)>, name: Seq<char>) -> Seq<Seq<char>> {
    match value_of(pairs, name) {
        Some(value) => split(value, ','),
        None => Seq::empty(),
    }
}

impl<'a> QueryParams<'a> {
    /// Cuts a query string into its pairs; no query gives no pairs.
    pub fn parse(query: Option<&'a str>) -> (params: QueryParams<'a>)
        ensures
            params@ == match query {
                Some(text) => query_pairs(text@),
                None => Seq::empty(),
            },
    {
        match query {
            None => {
                let params = QueryParams { vec: Vec::new() };
                assert(params.vec.deep_view() =~= Seq::empty());
                params
            },
            Some(text) => QueryParams { vec: querify(text) },
        }
    }

    /// The value as written of the first pair whose key is `name`.
    fn find(&self, name: &str) -> (found: Option<&'a str>)
        ensures
            found.deep_view() == first_value(self@, name@),
    {
        let ghost all = self.vec.deep_view();
        let mut i: usize = 0;
        assert(all.skip(0) =~= all);
        while i < self.vec.len()
            invariant
                i <= self.vec.len(),
                all == self.vec.deep_view(),
                all.len() == self.vec.len(),
                first_value(all, name@) == first_value(all.skip(i as int), name@),
            decreases self.vec.len() - i,
        {
            assert(all.skip(i as int)[0] == all[i as int]);
            if same_text(self.vec[i].0, name) {
                return Some(self.vec[i].1);
            }
            assert(all.skip(i as int).drop_first() =~= all.skip(i + 1));
            i = i + 1;
        }
        None
    }

    /// The decoded value of the first pair whose key is `name`. A value that
    /// does not decode counts as absent; one that was written without `%` is
    /// given as it was written.
    pub fn get(&self, name: &str) -> (value: Option<String>)
        ensures
            value.deep_view() == value_of(self@, name@),
            first_value(self@, name@) matches Some(written) ==> (!written.contains('%')
                ==> value.deep_view() == Some(written)),
    {
        match self.find(name) {
            Some(value) => decode(value),
            None => None,
        }
    }

    /// The decoded value of the first pair whose key is `name`, which has to
    /// be there.
    pub fn require<'b>(&self, name: &'b str) -> (value: Result<String, ParseParamError<'b>>)
        ensures
            match value {
                Ok(text) => value_of(self@, name@) == Some(text@),
                Err(ParseParamError::FieldRequired { name: missing }) => value_of(self@, name@)
                    is None && missing@ == name@,
            },
    {
        match self.get(name) {
            None => Err(ParseParamError::FieldRequired { name }),
            Some(value) => Ok(value),
        }
    }

    /// The decoded value of the first pair whose key is `name`, cut at each
    /// comma. No such value gives no pieces; an empty value gives one empty
    /// piece.
    pub fn get_list(&self, name: &str) -> (list: Vec<String>)
        ensures
            list.deep_view() == list_of(self@, name@),
    {
        match self.get(name) {
            Some(value) => split_text(value.as_str(), ','),
            None => {
                let list: Vec<String> = Vec::new();
                assert(list.deep_view() =~= Seq::empty());
                list
            },
        }
    }
}

/// A record that is read from the parameters of a query.
pub trait Params: Sized + View {
    /// The name of the parameter that has to be there, if there is one.
    spec fn required() -> Option<Seq<char>>;

    /// The record that the pairs of a query give, where nothing is missing.
    spec fn read(pairs: Seq<(Seq<char>, Seq<char>)>) -> Self::V;

    /// Reads the record: it is refused exactly where the required parameter
    /// is absent, and the error names that parameter.
    fn parse<'a>(params: &QueryParams) -> (parsed: Result<Self, ParseParamError<'a>>)
        ensures
            match parsed {
                Ok(record) => {
                    &&& record@ == Self::read(params@)
                    &&& Self::required() matches Some(name) ==> value_of(params@, name) is Some
                },
                Err(ParseParamError::FieldRequired { name }) => {
                    &&& Self::required() == Some(name@)
                    &&& value_of(params@, name@) is None
                },
            },
    ;

    /// Reads the record from a query string; no query is a query without
    /// parameters.
    fn parse_uri<'a>(query: Option<&str>) -> (parsed: Result<Self, ParseParamError<'a>>)
        ensures
            ({
                let pairs = match query {
                    Some(text) => query_pairs(text@),
                    None => Seq::empty(),
                };
                match parsed {
                    Ok(record) => {
                        &&& record@ == Self::read(pairs)
                        &&& Self::required() matches Some(name) ==> value_of(pairs, name) is Some
                    },
                    Err(ParseParamError::FieldRequired { name }) => {
                        &&& Self::required() == Some(name@)
                        &&& value_of(pairs, name@) is None
                    },
                }
            }),
    {
        Self::parse(&QueryParams::parse(query))
    }
}

} // verus!
