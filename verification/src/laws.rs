//! What the parser of a dictionary member yields on each form of a member, how it fails, and
//! what it makes of a member's own text.
//!
//! A form is given by what the parsers of the six constructs find, cursor after cursor: the
//! form `required T id;`, say, is a text at whose front no attribute list is found and the
//! marker is, behind which no attribute list is found and a type is, and so on.

use vstd::prelude::*;
use crate::dictionary::DictionaryMember;
use crate::error::Expected;
use crate::parse::{
    between, fails_at, lacks, lemma_parse_stays_within, reads, reads_alike, spec_optional, Parse,
};

verus! {

impl<'a, A, R, T, I, D, S> DictionaryMember<A, R, T, I, D, S> where
    A: Parse<'a>,
    R: Parse<'a>,
    T: Parse<'a>,
    I: Parse<'a>,
    D: Parse<'a>,
    S: Parse<'a>,
 {
    /// Reading a member only moves forward: the cursor behind the member, and the cursor of a
    /// failure, are ends of the text that was given.
    pub proof fn lemma_parse_advances(input: Seq<char>)
        ensures
            match Self::spec_parse(input) {
                Ok((rest, _)) => rest.is_suffix_of(input),
                Err(failure) => failure.at.is_suffix_of(input),
            },
    {
        let (after_attributes, _) = spec_optional::<A>(input);
        let (after_required, required) = spec_optional::<R>(after_attributes);
        let before_type = if required is Some {
            spec_optional::<A>(after_required).0
        } else {
            after_required
        };
        lemma_parse_stays_within::<A>(input, input);
        lemma_parse_stays_within::<R>(after_attributes, input);
        lemma_parse_stays_within::<A>(after_required, input);
        lemma_parse_stays_within::<T>(before_type, input);
        if let Ok((after_type, _)) = T::spec_parse(before_type) {
            lemma_parse_stays_within::<I>(after_type, input);
            if let Ok((after_identifier, _)) = I::spec_parse(after_type) {
                let before_terminator = if required is Some {
                    after_identifier
                } else {
                    spec_optional::<D>(after_identifier).0
                };
                lemma_parse_stays_within::<D>(after_identifier, input);
                lemma_parse_stays_within::<S>(before_terminator, input);
            }
        }
    }

    /// A member that was read has the shape of the grammar: where it has the marker, it has no
    /// default.
    pub proof fn lemma_parse_well_formed(input: Seq<char>)
        ensures
            Self::spec_parse(input) matches Ok((_, member)) ==> member.well_formed(),
    {
    }

    /// A member of the form `required T id;` is read as a required member that has neither
    /// attributes nor a default.
    pub proof fn law_required(
        input: Seq<char>,
        after_required: Seq<char>,
        required: R::Model,
        after_type: Seq<char>,
        type_: T::Model,
        after_identifier: Seq<char>,
        identifier: I::Model,
        rest: Seq<char>,
        semi_colon: S::Model,
    )
        requires
            lacks::<A>(input),
            reads::<R>(input, after_required, required),
            lacks::<A>(after_required),
            reads::<T>(after_required, after_type, type_),
            reads::<I>(after_type, after_identifier, identifier),
            reads::<S>(after_identifier, rest, semi_colon),
        ensures
            Self::spec_parse(input) matches Ok((left, member)) && {
                &&& left == rest
                &&& member.attributes is None
                &&& member.required == Some(required)
                &&& member.type_ == type_
                &&& member.identifier == identifier
                &&& member.default is None
                &&& member.semi_colon == semi_colon
            },
    {
    }

    /// A member of the form `required [A] T id;` has the attributes `[A]`, which stand before
    /// its type.
    pub proof fn law_required_with_type_attributes(
        input: Seq<char>,
        after_required: Seq<char>,
        required: R::Model,
        after_attributes: Seq<char>,
        attributes: A::Model,
        after_type: Seq<char>,
        type_: T::Model,
        after_identifier: Seq<char>,
        identifier: I::Model,
        rest: Seq<char>,
        semi_colon: S::Model,
    )
        requires
            lacks::<A>(input),
            reads::<R>(input, after_required, required),
            reads::<A>(after_required, after_attributes, attributes),
            reads::<T>(after_attributes, after_type, type_),
            reads::<I>(after_type, after_identifier, identifier),
            reads::<S>(after_identifier, rest, semi_colon),
        ensures
            Self::spec_parse(input) matches Ok((left, member)) && {
                &&& left == rest
                &&& member.attributes == Some(attributes)
                &&& member.required == Some(required)
                &&& member.type_ == type_
                &&& member.identifier == identifier
                &&& member.default is None
                &&& member.semi_colon == semi_colon
            },
    {
    }

    /// A member of the form `[A] required T id;` has the attributes `[A]`, which stand before
    /// the marker: with no list behind the marker, the one before it is kept.
    pub proof fn law_required_with_member_attributes(
        input: Seq<char>,
        after_attributes: Seq<char>,
        attributes: A::Model,
        after_required: Seq<char>,
        required: R::Model,
        after_type: Seq<char>,
        type_: T::Model,
        after_identifier: Seq<char>,
        identifier: I::Model,
        rest: Seq<char>,
        semi_colon: S::Model,
    )
        requires
            reads::<A>(input, after_attributes, attributes),
            reads::<R>(after_attributes, after_required, required),
            lacks::<A>(after_required),
            reads::<T>(after_required, after_type, type_),
            reads::<I>(after_type, after_identifier, identifier),
            reads::<S>(after_identifier, rest, semi_colon),
        ensures
            Self::spec_parse(input) matches Ok((left, member)) && {
                &&& left == rest
                &&& member.attributes == Some(attributes)
                &&& member.required == Some(required)
                &&& member.type_ == type_
                &&& member.identifier == identifier
                &&& member.default is None
                &&& member.semi_colon == semi_colon
            },
    {
    }

    /// A member of the form `[A] required [B] T id;` is accepted and has the attributes `[B]`:
    /// the list behind the marker is kept and the list before it is dropped.
    pub proof fn law_type_attributes_win(
        input: Seq<char>,
        after_member_attributes: Seq<char>,
        member_attributes: A::Model,
        after_required: Seq<char>,
        required: R::Model,
        after_type_attributes: Seq<char>,
        type_attributes: A::Model,
        after_type: Seq<char>,
        type_: T::Model,
        after_identifier: Seq<char>,
        identifier: I::Model,
        rest: Seq<char>,
        semi_colon: S::Model,
    )
        requires
            reads::<A>(input, after_member_attributes, member_attributes),
            reads::<R>(after_member_attributes, after_required, required),
            reads::<A>(after_required, after_type_attributes, type_attributes),
            reads::<T>(after_type_attributes, after_type, type_),
            reads::<I>(after_type, after_identifier, identifier),
            reads::<S>(after_identifier, rest, semi_colon),
        ensures
            Self::spec_parse(input) matches Ok((left, member)) && {
                &&& left == rest
                &&& member.attributes == Some(type_attributes)
                &&& member.required == Some(required)
                &&& member.type_ == type_
                &&& member.identifier == identifier
                &&& member.default is None
                &&& member.semi_colon == semi_colon
            },
    {
    }

    /// A member of the form `T id;` is read as an optional member that has neither attributes
    /// nor a default.
    pub proof fn law_optional(
        input: Seq<char>,
        after_type: Seq<char>,
        type_: T::Model,
        after_identifier: Seq<char>,
        identifier: I::Model,
        rest: Seq<char>,
        semi_colon: S::Model,
    )
        requires
            lacks::<A>(input),
            lacks::<R>(input),
            reads::<T>(input, after_type, type_),
            reads::<I>(after_type, after_identifier, identifier),
            lacks::<D>(after_identifier),
            reads::<S>(after_identifier, rest, semi_colon),
        ensures
            Self::spec_parse(input) matches Ok((left, member)) && {
                &&& left == rest
                &&& member.attributes is None
                &&& member.required is None
                &&& member.type_ == type_
                &&& member.identifier == identifier
                &&& member.default is None
                &&& member.semi_colon == semi_colon
            },
    {
    }

    /// A member of the form `T id = V;` is read as an optional member with the default `= V`.
    pub proof fn law_optional_with_default(
        input: Seq<char>,
        after_type: Seq<char>,
        type_: T::Model,
        after_identifier: Seq<char>,
        identifier: I::Model,
        after_default: Seq<char>,
        default: D::Model,
        rest: Seq<char>,
        semi_colon: S::Model,
    )
        requires
            lacks::<A>(input),
            lacks::<R>(input),
            reads::<T>(input, after_type, type_),
            reads::<I>(after_type, after_identifier, identifier),
            reads::<D>(after_identifier, after_default, default),
            reads::<S>(after_default, rest, semi_colon),
        ensures
            Self::spec_parse(input) matches Ok((left, member)) && {
                &&& left == rest
                &&& member.attributes is None
                &&& member.required is None
                &&& member.type_ == type_
                &&& member.identifier == identifier
                &&& member.default == Some(default)
                &&& member.semi_colon == semi_colon
            },
    {
    }

    /// A member of the form `[A] T id;` is read as an optional member with the attributes
    /// `[A]`.
    pub proof fn law_optional_with_attributes(
        input: Seq<char>,
        after_attributes: Seq<char>,
        attributes: A::Model,
        after_type: Seq<char>,
        type_: T::Model,
        after_identifier: Seq<char>,
        identifier: I::Model,
        rest: Seq<char>,
        semi_colon: S::Model,
    )
        requires
            reads::<A>(input, after_attributes, attributes),
            lacks::<R>(after_attributes),
            reads::<T>(after_attributes, after_type, type_),
            reads::<I>(after_type, after_identifier, identifier),
            lacks::<D>(after_identifier),
            reads::<S>(after_identifier, rest, semi_colon),
        ensures
            Self::spec_parse(input) matches Ok((left, member)) && {
                &&& left == rest
                &&& member.attributes == Some(attributes)
                &&& member.required is None
                &&& member.type_ == type_
                &&& member.identifier == identifier
                &&& member.default is None
                &&& member.semi_colon == semi_colon
            },
    {
    }

    /// A member without its type fails with the type expected, at the cursor that the type's
    /// parser gave up at. The type is sought behind the attribute list and the marker, and for a
    /// required member behind the attribute list that may follow the marker.
    pub proof fn law_without_type(input: Seq<char>, at: Seq<char>)
        requires
            ({
                let (after_required, required) = spec_optional::<R>(spec_optional::<A>(input).0);
                if required is Some {
                    fails_at::<T>(spec_optional::<A>(after_required).0, at)
                } else {
                    fails_at::<T>(after_required, at)
                }
            }),
        ensures
            Self::spec_parse(input) matches Err(failure) && {
                &&& failure.expected == Expected::Type
                &&& failure.at == at
            },
    {
    }

    /// A member without its name fails with the identifier expected, at the cursor that the
    /// identifier's parser gave up at, which lies behind the type.
    pub proof fn law_without_identifier(
        input: Seq<char>,
        after_type: Seq<char>,
        type_: T::Model,
        at: Seq<char>,
    )
        requires
            ({
                let (after_required, required) = spec_optional::<R>(spec_optional::<A>(input).0);
                if required is Some {
                    reads::<T>(spec_optional::<A>(after_required).0, after_type, type_)
                } else {
                    reads::<T>(after_required, after_type, type_)
                }
            }),
            fails_at::<I>(after_type, at),
        ensures
            Self::spec_parse(input) matches Err(failure) && {
                &&& failure.expected == Expected::Identifier
                &&& failure.at == at
            },
            at.is_suffix_of(after_type),
    {
        lemma_parse_stays_within::<I>(after_type, after_type);
    }

    /// A required member without its terminator fails with the terminator expected. The
    /// failure's cursor is the one that the terminator's parser gave up at: it lies behind the
    /// type and the name, which were matched, and not at the start of the member.
    pub proof fn law_required_without_terminator(
        input: Seq<char>,
        after_required: Seq<char>,
        required: R::Model,
        after_type: Seq<char>,
        type_: T::Model,
        after_identifier: Seq<char>,
        identifier: I::Model,
        at: Seq<char>,
    )
        requires
            reads::<R>(spec_optional::<A>(input).0, after_required, required),
            reads::<T>(spec_optional::<A>(after_required).0, after_type, type_),
            reads::<I>(after_type, after_identifier, identifier),
            fails_at::<S>(after_identifier, at),
        ensures
            Self::spec_parse(input) matches Err(failure) && {
                &&& failure.expected == Expected::Terminator
                &&& failure.at == at
            },
            at.is_suffix_of(after_identifier),
            after_identifier.is_suffix_of(input),
    {
        let after_attributes = spec_optional::<A>(input).0;
        lemma_parse_stays_within::<A>(input, input);
        lemma_parse_stays_within::<R>(after_attributes, input);
        lemma_parse_stays_within::<A>(after_required, input);
        lemma_parse_stays_within::<T>(spec_optional::<A>(after_required).0, input);
        lemma_parse_stays_within::<I>(after_type, input);
        lemma_parse_stays_within::<S>(after_identifier, after_identifier);
    }

    /// An optional member without its terminator fails with the terminator expected. The
    /// failure's cursor is the one that the terminator's parser gave up at: it lies behind the
    /// type and the name, which were matched, and not at the start of the member.
    pub proof fn law_optional_without_terminator(
        input: Seq<char>,
        after_type: Seq<char>,
        type_: T::Model,
        after_identifier: Seq<char>,
        identifier: I::Model,
        at: Seq<char>,
    )
        requires
            lacks::<R>(spec_optional::<A>(input).0),
            reads::<T>(spec_optional::<A>(input).0, after_type, type_),
            reads::<I>(after_type, after_identifier, identifier),
            fails_at::<S>(spec_optional::<D>(after_identifier).0, at),
        ensures
            Self::spec_parse(input) matches Err(failure) && {
                &&& failure.expected == Expected::Terminator
                &&& failure.at == at
            },
            at.is_suffix_of(after_identifier),
            after_identifier.is_suffix_of(input),
    {
        let after_attributes = spec_optional::<A>(input).0;
        lemma_parse_stays_within::<A>(input, input);
        lemma_parse_stays_within::<T>(after_attributes, input);
        lemma_parse_stays_within::<I>(after_type, input);
        lemma_parse_stays_within::<D>(after_identifier, after_identifier);
        lemma_parse_stays_within::<S>(spec_optional::<D>(after_identifier).0, after_identifier);
    }

    /// Whether each construct of the member at the front of `input` is read the same when the
    /// text stops where `end` begins.
    pub open spec fn constructs_read_alike(input: Seq<char>, end: Seq<char>) -> bool {
        let (after_attributes, _) = spec_optional::<A>(input);
        let (after_required, required) = spec_optional::<R>(after_attributes);
        let before_type = if required is Some {
            spec_optional::<A>(after_required).0
        } else {
            after_required
        };
        &&& reads_alike::<A>(input, end)
        &&& reads_alike::<R>(after_attributes, end)
        &&& required is Some ==> reads_alike::<A>(after_required, end)
        &&& reads_alike::<T>(before_type, end)
        &&& T::spec_parse(before_type) matches Ok((after_type, _)) ==> {
            &&& reads_alike::<I>(after_type, end)
            &&& I::spec_parse(after_type) matches Ok((after_identifier, _)) ==> {
                let before_terminator = if required is Some {
                    after_identifier
                } else {
                    spec_optional::<D>(after_identifier).0
                };
                &&& required is None ==> reads_alike::<D>(after_identifier, end)
                &&& reads_alike::<S>(before_terminator, end)
            }
        }
    }

    /// Round trip. The text of a member, with what separates its constructs and without
    /// whatever follows the member, is read as an equal member, and nothing of it is left.
    /// This holds where each construct is read the same with and without what follows the
    /// member.
    pub proof fn law_reparse(input: Seq<char>)
        requires
            Self::spec_parse(input) matches Ok((rest, _)) && Self::constructs_read_alike(
                input,
                rest,
            ),
        ensures
            Self::spec_parse(input) matches Ok((rest, member)) && Self::spec_parse(
                between(input, rest),
            ) matches Ok((left, again)) && {
                &&& left.len() == 0
                &&& again == member
            },
    {
    }

    /// A list of attributes that was dropped leaves no trace. Where a required member has a
    /// list before the marker and one behind it, the text without the first list is read as the
    /// text with it is, as long as no list is found where the marker stands. With `law_reparse`
    /// this makes the text of the constructs that the member kept read as an equal member.
    pub proof fn law_dropped_attributes(
        input: Seq<char>,
        after_member_attributes: Seq<char>,
        member_attributes: A::Model,
        after_required: Seq<char>,
        required: R::Model,
        after_type_attributes: Seq<char>,
        type_attributes: A::Model,
    )
        requires
            reads::<A>(input, after_member_attributes, member_attributes),
            lacks::<A>(after_member_attributes),
            reads::<R>(after_member_attributes, after_required, required),
            reads::<A>(after_required, after_type_attributes, type_attributes),
        ensures
            Self::spec_parse(after_member_attributes) == Self::spec_parse(input),
    {
    }
}

} // verus!
