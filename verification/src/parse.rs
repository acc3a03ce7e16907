//! Reading one construct from the front of a text.
//!
//! A text is read from the front. What a reader has not read yet is the cursor: the end of the
//! text that is still to come. Every reader takes a cursor and hands back the cursor behind
//! what it read, so that the next reader can go on from there.

use vstd::prelude::*;

verus! {

/// A construct that can be read from the front of a text.
///
/// An implementation says in `spec_parse` what it reads from each text, and `parse` is held to
/// that. The parsers of larger constructs are stated over the `spec_parse` of their parts, so
/// what is proved of them holds for parts that keep to this: `parse` gives the same outcome
/// whenever it is given the same text, and the cursor in its outcome is an end of that text.
pub trait Parse<'a>: Sized {
    /// The mathematical value that a parsed construct stands for.
    type Model;

    /// The value that this construct stands for.
    spec fn model(&self) -> Self::Model;

    /// What reading this construct from the front of `input` gives: the cursor behind the
    /// construct together with its value, or the cursor at which the construct was not found.
    spec fn spec_parse(input: Seq<char>) -> Result<(Seq<char>, Self::Model), Seq<char>>;

    /// Reading only moves forward: the cursor that comes back, behind the construct or at the
    /// point of failure, is an end of the text that was given.
    proof fn lemma_parse_advances(input: Seq<char>)
        ensures
            match Self::spec_parse(input) {
                Ok((rest, _)) => rest.is_suffix_of(input),
                Err(at) => at.is_suffix_of(input),
            },
    ;

    /// Reads this construct from the front of `input`.
    fn parse(input: &'a str) -> (res: Result<(&'a str, Self), &'a str>)
        ensures
            match res {
                Ok((rest, value)) => Self::spec_parse(input@) == Ok::<_, Seq<char>>(
                    (rest@, value.model()),
                ),
                Err(at) => Self::spec_parse(input@) == Err::<(Seq<char>, Self::Model), _>(at@),
            },
    ;
}

/// `P` reads `value` from the front of `from` and leaves `to`.
pub open spec fn reads<'a, P: Parse<'a>>(from: Seq<char>, to: Seq<char>, value: P::Model) -> bool {
    P::spec_parse(from) == Ok::<_, Seq<char>>((to, value))
}

/// `P` does not find its construct at the front of `from`, and gives up at `at`.
pub open spec fn fails_at<'a, P: Parse<'a>>(from: Seq<char>, at: Seq<char>) -> bool {
    P::spec_parse(from) == Err::<(Seq<char>, P::Model), _>(at)
}

/// `P` does not find its construct at the front of `from`.
pub open spec fn lacks<'a, P: Parse<'a>>(from: Seq<char>) -> bool {
    P::spec_parse(from) is Err
}

/// The text between two cursors of one text: what stands at the front of `from` before `to`
/// begins.
pub open spec fn between(from: Seq<char>, to: Seq<char>) -> Seq<char>
    recommends
        to.is_suffix_of(from),
{
    from.take(from.len() - to.len())
}

/// `P` reads the same from `cursor` whether the text goes on to its end or stops where `end`
/// begins: it finds the same value and leaves the same text before `end`, or it finds nothing
/// either way.
pub open spec fn reads_alike<'a, P: Parse<'a>>(cursor: Seq<char>, end: Seq<char>) -> bool {
    match P::spec_parse(cursor) {
        Ok((rest, value)) => reads::<P>(between(cursor, end), between(rest, end), value),
        Err(_) => lacks::<P>(between(cursor, end)),
    }
}

/// The value that an optional construct stands for.
pub open spec fn optional_model<'a, P: Parse<'a>>(value: Option<P>) -> Option<P::Model> {
    match value {
        Some(found) => Some(found.model()),
        None => None,
    }
}

/// What reading a construct that may be absent gives: the construct where it is found, and
/// nothing, with the cursor unmoved, where it is not.
pub open spec fn spec_optional<'a, P: Parse<'a>>(input: Seq<char>) -> (
    Seq<char>,
    Option<P::Model>,
) {
    match P::spec_parse(input) {
        Ok((rest, value)) => (rest, Some(value)),
        Err(_) => (input, None),
    }
}

/// Reads a construct that may be absent. Not finding it is no failure: the result is then
/// `None`, and the cursor that comes back is `input` itself.
pub fn optional<'a, P: Parse<'a>>(input: &'a str) -> (res: (&'a str, Option<P>))
    ensures
        (res.0@, optional_model(res.1)) == spec_optional::<P>(input@),
{
    match P::parse(input) {
        Ok((rest, value)) => (rest, Some(value)),
        Err(_) => (input, None),
    }
}

/// Reading from a cursor of a text gives a cursor of that text: what is left, and the place
/// of a failure, are ends of `text` wherever `cursor` is one.
pub proof fn lemma_parse_stays_within<'a, P: Parse<'a>>(cursor: Seq<char>, text: Seq<char>)
    requires
        cursor.is_suffix_of(text),
    ensures
        match P::spec_parse(cursor) {
            Ok((rest, _)) => rest.is_suffix_of(text),
            Err(at) => at.is_suffix_of(text),
        },
        spec_optional::<P>(cursor).0.is_suffix_of(text),
{
    P::lemma_parse_advances(cursor);
}

impl<'a, P: Parse<'a>> Parse<'a> for Option<P> {
    type Model = Option<P::Model>;

    open spec fn model(&self) -> Option<P::Model> {
        optional_model(*self)
    }

    open spec fn spec_parse(input: Seq<char>) -> Result<
        (Seq<char>, Option<P::Model>),
        Seq<char>,
    > {
        Ok(spec_optional::<P>(input))
    }

    proof fn lemma_parse_advances(input: Seq<char>) {
        P::lemma_parse_advances(input);
    }

    /// Reads the construct if it is there. This never fails.
    fn parse(input: &'a str) -> (res: Result<(&'a str, Self), &'a str>)
        ensures
            res is Ok,
    {
        let (rest, value) = optional::<P>(input);
        Ok((rest, value))
    }
}

} // verus!
