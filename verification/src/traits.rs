//! Reading one field of a record by the name of a property.

use crate::enums::{AccountInfoProperty, SymbolInfoProperty, TerminalInfoProperty};
use crate::number::Double;
use crate::prelude::{MQLError, MQLResult};
use vstd::prelude::*;

verus! {

/// A property of one of the three records that can be read field by field.
#[derive(Clone, Copy, Debug, PartialEq, Eq, Structural)]
pub enum InfoProperties {
    AccountInfoProperty(AccountInfoProperty),
    SymbolInfoProperty(SymbolInfoProperty),
    TerminalInfoProperty(TerminalInfoProperty),
}

/// The four kinds of value that a property can have.
#[derive(Clone, Copy, Debug, PartialEq, Eq, Structural)]
pub enum ValueKind {
    Double,
    Integer,
    Text,
    Boolean,
}

/// A record whose fields can be read by property.
///
/// Each of the four `*_field` functions is the table of one kind of value: it
/// gives the field that a property names, or `None` where the record has no
/// field of that kind under that property. The `get_info_*` methods read by
/// these tables and are owed only a property that the table holds; `answers`
/// tells whether it does.
pub trait InfoTrait {
    spec fn double_field(&self, info_property: InfoProperties) -> Option<Double>;

    spec fn integer_field(&self, info_property: InfoProperties) -> Option<i64>;

    spec fn text_field(&self, info_property: InfoProperties) -> Option<String>;

    spec fn boolean_field(&self, info_property: InfoProperties) -> Option<bool>;

    /// Whether the record has a field of kind `kind` under `info_property`.
    fn answers(&self, info_property: InfoProperties, kind: ValueKind) -> (held: bool)
        ensures
            held == match kind {
                ValueKind::Double => self.double_field(info_property) is Some,
                ValueKind::Integer => self.integer_field(info_property) is Some,
                ValueKind::Text => self.text_field(info_property) is Some,
                ValueKind::Boolean => self.boolean_field(info_property) is Some,
            },
    ;

    /// The double precision number that the record holds under `info_property`.
    fn get_info_float(&self, info_property: InfoProperties) -> (value: MQLResult<Double>)
        requires
            self.double_field(info_property) is Some,
        ensures
            value == Ok::<Double, MQLError>(self.double_field(info_property)->0),
    ;

    /// The integer that the record holds under `info_property`.
    fn get_info_integer(&self, info_property: InfoProperties) -> (value: MQLResult<i64>)
        requires
            self.integer_field(info_property) is Some,
        ensures
            value == Ok::<i64, MQLError>(self.integer_field(info_property)->0),
    ;

    /// The text that the record holds under `info_property`.
    fn get_info_string(&self, info_property: InfoProperties) -> (value: MQLResult<String>)
        requires
            self.text_field(info_property) is Some,
        ensures
            value == Ok::<String, MQLError>(self.text_field(info_property)->0),
    ;

    /// The truth value that the record holds under `info_property`.
    fn get_info_boolean(&self, info_property: InfoProperties) -> (value: MQLResult<bool>)
        requires
            self.boolean_field(info_property) is Some,
        ensures
            value == Ok::<bool, MQLError>(self.boolean_field(info_property)->0),
    ;
}

} // verus!
