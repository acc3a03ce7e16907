//! The dictionary member: one field declaration inside a dictionary.
//!
//! ```text
//! DictionaryMember ::
//!     ExtendedAttributeList DictionaryMemberRest
//!
//! DictionaryMemberRest ::
//!     required TypeWithExtendedAttributes identifier ;
//!     Type identifier Default ;
//!
//! TypeWithExtendedAttributes ::
//!     ExtendedAttributeList Type
//! ```
//!
//! So a required member reads `[attributes]? required [attributes]? Type identifier ;` and an
//! optional one `[attributes]? Type identifier Default? ;`.

use vstd::prelude::*;
use crate::error::{Expected, Failure, ParseError};
use crate::parse::{optional, optional_model, spec_optional, Parse};

verus! {

/// One member of a dictionary. Its six constructs are read by the parsers of `A` (an extended
/// attribute list), `R` (the `required` marker), `T` (a type), `I` (an identifier), `D` (a
/// default clause) and `S` (the terminator).
#[derive(Clone, Debug, Eq, PartialEq, Ord, PartialOrd, Hash)]
pub struct DictionaryMember<A, R, T, I, D, S> {
    /// The extended attributes of the member, from the one place they were taken from.
    pub attributes: Option<A>,
    /// The marker of a member that every value of the dictionary must have.
    pub required: Option<R>,
    /// The declared type.
    pub type_: T,
    /// The name.
    pub identifier: I,
    /// The value of the member where it is left out. A required member has none.
    pub default: Option<D>,
    /// The terminator of the declaration.
    pub semi_colon: S,
}

impl<A, R, T, I, D, S> DictionaryMember<A, R, T, I, D, S> {
    /// The shape that the grammar gives a member: a required member has no default.
    pub open spec fn well_formed(self) -> bool {
        self.required is Some ==> self.default is None
    }

    /// Puts a required member together from its constructs: the attribute list before the
    /// marker, should there be one, the marker, the attribute list behind it, should there be
    /// one, the type, the name and the terminator. Of the two lists the member keeps one, as
    /// `merge_attributes` settles it, and it has no default.
    pub fn new_required(
        member_attributes: Option<A>,
        required: R,
        type_attributes: Option<A>,
        type_: T,
        identifier: I,
        semi_colon: S,
    ) -> (member: Self)
        ensures
            member.attributes == spec_merge_attributes(member_attributes, type_attributes),
            member.required == Some(required),
            member.type_ == type_,
            member.identifier == identifier,
            member.default is None,
            member.semi_colon == semi_colon,
            member.well_formed(),
    {
        DictionaryMember {
            attributes: merge_attributes(member_attributes, type_attributes),
            required: Some(required),
            type_,
            identifier,
            default: None,
            semi_colon,
        }
    }

    /// Puts an optional member together from its constructs: the attribute list, should there
    /// be one, the type, the name, the default, should there be one, and the terminator. It
    /// has no marker.
    pub fn new_optional(
        attributes: Option<A>,
        type_: T,
        identifier: I,
        default: Option<D>,
        semi_colon: S,
    ) -> (member: Self)
        ensures
            member.attributes == attributes,
            member.required is None,
            member.type_ == type_,
            member.identifier == identifier,
            member.default == default,
            member.semi_colon == semi_colon,
            member.well_formed(),
    {
        DictionaryMember { attributes, required: None, type_, identifier, default, semi_colon }
    }
}

/// The members of one dictionary, in the order of their declarations.
pub type DictionaryMembers<A, R, T, I, D, S> = Vec<DictionaryMember<A, R, T, I, D, S>>;

/// The attributes that a member keeps, of the list before `required` (`member_level`) and the
/// list behind it (`type_level`): the list behind it wherever there is one, and else the list
/// before it.
pub open spec fn spec_merge_attributes<M>(member_level: Option<M>, type_level: Option<M>) -> Option<
    M,
> {
    if type_level is Some {
        type_level
    } else {
        member_level
    }
}

/// Settles the attributes of a required member, which may stand before `required` and behind
/// it. A list behind `required` is kept and one before it is then dropped, without complaint;
/// with none behind it, the list before it is kept.
pub fn merge_attributes<A>(member_level: Option<A>, type_level: Option<A>) -> (merged: Option<A>)
    ensures
        merged == spec_merge_attributes(member_level, type_level),
{
    match (member_level, type_level) {
        (_, Some(type_attributes)) => Some(type_attributes),
        (member_attributes, None) => member_attributes,
    }
}

/// The attributes that a member keeps come from one place. They are one of the two lists as it
/// stood, never a mixture of both; the list behind `required` goes first; and the member has
/// none only where there was no list in either place.
pub proof fn lemma_merge_keeps_one_list<M>(member_level: Option<M>, type_level: Option<M>)
    ensures
        ({
            let merged = spec_merge_attributes(member_level, type_level);
            &&& merged == type_level || merged == member_level
            &&& type_level is Some ==> merged == type_level
            &&& merged is None <==> member_level is None && type_level is None
        }),
{
}

/// What reading a construct that must be there gives: the failure names the construct.
pub open spec fn spec_expect<'a, P: Parse<'a>>(expected: Expected, input: Seq<char>) -> Result<
    (Seq<char>, P::Model),
    Failure,
> {
    match P::spec_parse(input) {
        Ok(found) => Ok(found),
        Err(at) => Err(Failure { expected, at }),
    }
}

/// Reads a construct that must be there. Where it is not found, the failure names `expected`
/// and keeps the cursor that the construct's parser gave up at.
pub fn expect<'a, P: Parse<'a>>(expected: Expected, input: &'a str) -> (res: Result<
    (&'a str, P),
    ParseError<'a>,
>)
    ensures
        match res {
            Ok((rest, value)) => spec_expect::<P>(expected, input@) == Ok::<_, Failure>(
                (rest@, value.model()),
            ),
            Err(error) => spec_expect::<P>(expected, input@) matches Err(failure) && failure
                == error@,
        },
{
    match P::parse(input) {
        Ok(found) => Ok(found),
        Err(at) => Err(ParseError { expected, at }),
    }
}

impl<'a, A, R, T, I, D, S> DictionaryMember<A, R, T, I, D, S> where
    A: Parse<'a>,
    R: Parse<'a>,
    T: Parse<'a>,
    I: Parse<'a>,
    D: Parse<'a>,
    S: Parse<'a>,
 {
    /// The member as a mathematical value: each construct by the value it stands for.
    pub open spec fn model(self) -> DictionaryMember<
        A::Model,
        R::Model,
        T::Model,
        I::Model,
        D::Model,
        S::Model,
    > {
        DictionaryMember {
            attributes: optional_model(self.attributes),
            required: optional_model(self.required),
            type_: self.type_.model(),
            identifier: self.identifier.model(),
            default: optional_model(self.default),
            semi_colon: self.semi_colon.model(),
        }
    }

    /// What reading a member from the front of `input` gives.
    ///
    /// An attribute list and the marker are read if they are there. Behind the marker a second
    /// attribute list may stand, and no default clause; without the marker it is the other way
    /// round. The type, the name and the terminator must be found, in this order, and the first
    /// of them that is missing is the failure.
    pub open spec fn spec_parse(input: Seq<char>) -> Result<
        (Seq<char>, DictionaryMember<A::Model, R::Model, T::Model, I::Model, D::Model, S::Model>),
        Failure,
    > {
        let (after_attributes, member_level) = spec_optional::<A>(input);
        let (after_required, required) = spec_optional::<R>(after_attributes);
        let (before_type, type_level) = if required is Some {
            spec_optional::<A>(after_required)
        } else {
            (after_required, None)
        };
        match spec_expect::<T>(Expected::Type, before_type) {
            Err(failure) => Err(failure),
            Ok((after_type, type_)) => match spec_expect::<I>(Expected::Identifier, after_type) {
                Err(failure) => Err(failure),
                Ok((after_identifier, identifier)) => {
                    let (before_terminator, default) = if required is Some {
                        (after_identifier, None)
                    } else {
                        spec_optional::<D>(after_identifier)
                    };
                    match spec_expect::<S>(Expected::Terminator, before_terminator) {
                        Err(failure) => Err(failure),
                        Ok((rest, semi_colon)) => Ok(
                            (
                                rest,
                                DictionaryMember {
                                    attributes: spec_merge_attributes(member_level, type_level),
                                    required,
                                    type_,
                                    identifier,
                                    default,
                                    semi_colon,
                                },
                            ),
                        ),
                    }
                },
            },
        }
    }

    /// Reads one member from the front of `input`: the member and the cursor behind it, or the
    /// construct that was expected and not found, with the cursor at that point.
    pub fn parse(input: &'a str) -> (res: Result<(&'a str, Self), ParseError<'a>>)
        ensures
            match res {
                Ok((rest, member)) => {
                    &&& Self::spec_parse(input@) == Ok::<_, Failure>((rest@, member.model()))
                    &&& rest@.is_suffix_of(input@)
                    &&& member.well_formed()
                },
                Err(error) => {
                    &&& Self::spec_parse(input@) matches Err(failure) && failure == error@
                    &&& error.at@.is_suffix_of(input@)
                },
            },
    {
        proof {
            Self::lemma_parse_advances(input@);
        }
        let (input, attributes) = optional::<A>(input);
        let (input, required) = optional::<R>(input);
        match required {
            Some(required) => {
                let (input, type_attributes) = optional::<A>(input);
                let (input, type_) = expect::<T>(Expected::Type, input)?;
                let (input, identifier) = expect::<I>(Expected::Identifier, input)?;
                let (input, semi_colon) = expect::<S>(Expected::Terminator, input)?;
                Ok(
                    (
                        input,
                        Self::new_required(
                            attributes,
                            required,
                            type_attributes,
                            type_,
                            identifier,
                            semi_colon,
                        ),
                    ),
                )
            },
            None => {
                let (input, type_) = expect::<T>(Expected::Type, input)?;
                let (input, identifier) = expect::<I>(Expected::Identifier, input)?;
                let (input, default) = optional::<D>(input);
                let (input, semi_colon) = expect::<S>(Expected::Terminator, input)?;
                Ok((input, Self::new_optional(attributes, type_, identifier, default, semi_colon)))
            },
        }
    }
}

} // verus!
