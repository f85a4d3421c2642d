use vstd::prelude::*;

use crate::message::{FieldValue, Message};
use crate::value::{debug_string, debug_text, Shape};

verus! {

/// One case of a variant set: its name, how its fields are written, and the
/// message dedicated to it, if any.
pub struct Case {
    pub name: String,
    pub shape: Shape,
    pub message: Option<Message>,
}

/// A closed set of named cases, with an optional message shared by every
/// case that has none of its own.
pub struct VariantSet {
    pub name: String,
    pub default: Option<Message>,
    pub cases: Vec<Case>,
}

/// Where the message of a case comes from.
#[derive(Clone, Copy, PartialEq, Eq, Structural, Debug)]
pub enum MessageSource {
    /// The case's own message.
    Dedicated,
    /// The message shared by the whole set.
    SetDefault,
    /// The generic message built from the set's name and the value's debug text.
    Generic,
}

/// The generic message of a value of the set named `set_name`.
pub open spec fn generic_text(set_name: Seq<char>, value_debug: Seq<char>) -> Seq<char> {
    "["@ + set_name + "] An error occured; "@ + value_debug
}

impl VariantSet {
    /// The message that case `k` renders with, if it has one of its own or
    /// the set has a shared one.
    pub open spec fn chosen(&self, k: int) -> Option<Message> {
        match self.cases@[k].message {
            Some(m) => Some(m),
            None => self.default,
        }
    }

    /// Where the message of case `k` comes from.
    pub open spec fn source(&self, k: int) -> MessageSource {
        if self.cases@[k].message is Some {
            MessageSource::Dedicated
        } else if self.default is Some {
            MessageSource::SetDefault
        } else {
            MessageSource::Generic
        }
    }

    /// The text of a value of case `k` with the given fields.
    pub open spec fn case_text(&self, k: int, fields: Seq<FieldValue>) -> Seq<char> {
        match self.chosen(k) {
            Some(m) => m.text(fields),
            None => generic_text(
                self.name@,
                debug_text(self.cases@[k].name@, self.cases@[k].shape, fields),
            ),
        }
    }

    /// Tells where the message of case `k` comes from.
    pub fn source_of(&self, k: usize) -> (r: MessageSource)
        requires
            k < self.cases@.len(),
        ensures
            r == self.source(k as int),
    {
        if self.cases[k].message.is_some() {
            MessageSource::Dedicated
        } else if self.default.is_some() {
            MessageSource::SetDefault
        } else {
            MessageSource::Generic
        }
    }
}

/// Why a descriptor could not be built.
#[derive(Clone, Copy, PartialEq, Eq, Structural, Debug)]
pub enum DescriptorError {
    /// The active case is not a case of the set.
    UnknownCase,
    /// A case without fields was given field values.
    FieldsOnUnitCase,
    /// The message names a field position that the value does not have.
    MissingField,
}

/// What an error is: a record with its mandatory message, or one case of a
/// variant set.
pub enum Kind {
    Record { message: Message },
    Variant { set: VariantSet, active: usize },
}

/// An error value that can describe itself: what it is, and its fields.
pub struct ErrorDescriptor {
    pub kind: Kind,
    pub fields: Vec<FieldValue>,
}

impl ErrorDescriptor {
    /// Every part of the descriptor fits together: the active case exists,
    /// a case without fields has none, and the message that will be used
    /// names only fields that the value has.
    pub open spec fn wf(&self) -> bool {
        match self.kind {
            Kind::Record { message } => message.within(self.fields@.len()),
            Kind::Variant { set, active } => {
                &&& active < set.cases@.len()
                &&& set.cases@[active as int].shape == Shape::Unit ==> self.fields@.len() == 0
                &&& set.chosen(active as int) matches Some(m) ==> m.within(self.fields@.len())
            },
        }
    }

    /// The message that the descriptor renders with, if it has one: the
    /// record's, or the one that its case resolves to.
    pub open spec fn message(&self) -> Option<Message> {
        match self.kind {
            Kind::Record { message } => Some(message),
            Kind::Variant { set, active } => set.chosen(active as int),
        }
    }

    /// The text that the descriptor renders to.
    pub open spec fn text(&self) -> Seq<char> {
        match self.kind {
            Kind::Record { message } => message.text(self.fields@),
            Kind::Variant { set, active } => set.case_text(active as int, self.fields@),
        }
    }

    /// Describes a record, whose message is mandatory.
    pub fn record(message: Message, fields: Vec<FieldValue>) -> (r: Result<Self, DescriptorError>)
        ensures
            message.within(fields@.len()) ==> r == Ok::<Self, DescriptorError>(
                ErrorDescriptor { kind: Kind::Record { message }, fields },
            ),
            !message.within(fields@.len()) ==> r == Err::<Self, DescriptorError>(
                DescriptorError::MissingField,
            ),
    {
        if message.refs_within(fields.len()) {
            Ok(ErrorDescriptor { kind: Kind::Record { message }, fields })
        } else {
            Err(DescriptorError::MissingField)
        }
    }

    /// Describes a value of case `active` of `set`.
    pub fn variant(set: VariantSet, active: usize, fields: Vec<FieldValue>) -> (r: Result<
        Self,
        DescriptorError,
    >)
        ensures
            active >= set.cases@.len() ==> r == Err::<Self, DescriptorError>(
                DescriptorError::UnknownCase,
            ),
            active < set.cases@.len() && set.cases@[active as int].shape == Shape::Unit
                && fields@.len() > 0 ==> r == Err::<Self, DescriptorError>(
                DescriptorError::FieldsOnUnitCase,
            ),
            active < set.cases@.len() && !(set.cases@[active as int].shape == Shape::Unit
                && fields@.len() > 0) && (set.chosen(active as int) matches Some(m) && !m.within(
                fields@.len(),
            )) ==> r == Err::<Self, DescriptorError>(DescriptorError::MissingField),
            r is Ok ==> r == Ok::<Self, DescriptorError>(
                ErrorDescriptor { kind: Kind::Variant { set, active }, fields },
            ),
            r is Ok <==> (ErrorDescriptor { kind: Kind::Variant { set, active }, fields }).wf(),
    {
        if active >= set.cases.len() {
            return Err(DescriptorError::UnknownCase);
        }
        if set.cases[active].shape == Shape::Unit && fields.len() > 0 {
            return Err(DescriptorError::FieldsOnUnitCase);
        }
        let fits = match &set.cases[active].message {
            Some(m) => m.refs_within(fields.len()),
            None => match &set.default {
                Some(m) => m.refs_within(fields.len()),
                None => true,
            },
        };
        if fits {
            Ok(ErrorDescriptor { kind: Kind::Variant { set, active }, fields })
        } else {
            Err(DescriptorError::MissingField)
        }
    }

    /// Renders the human-readable message of the error.
    pub fn render(&self) -> (r: String)
        requires
            self.wf(),
        ensures
            r@ == self.text(),
    {
        match &self.kind {
            Kind::Record { message } => message.render(&self.fields),
            Kind::Variant { set, active } => {
                let case = &set.cases[*active];
                match &case.message {
                    Some(m) => m.render(&self.fields),
                    None => match &set.default {
                        Some(m) => m.render(&self.fields),
                        None => {
                            let mut out = "[".to_string();
                            out.append(set.name.as_str());
                            out.append("] An error occured; ");
                            let dbg = debug_string(case.name.as_str(), case.shape, &self.fields);
                            out.append(dbg.as_str());
                            out
                        },
                    },
                }
            },
        }
    }
}

} // verus!
