//! Ansible names of attribute types.
use vstd::prelude::*;

use crate::ir::IacType;

verus! {

/// The `argument_spec` type of an attribute type. An enum has the type of what
/// it is an enum over; what Ansible has no type for is a string.
pub open spec fn ansible_type_of(ty: IacType) -> Seq<char>
    decreases ty,
{
    match ty {
        IacType::Integer => "int"@,
        IacType::Float => "float"@,
        IacType::Numeric => "float"@,
        IacType::Boolean => "bool"@,
        IacType::List(_) => "list"@,
        IacType::SetOf(_) => "list"@,
        IacType::MapOf(_) => "dict"@,
        IacType::Object { .. } => "dict"@,
        IacType::Enum { underlying, .. } => ansible_type_of(*underlying),
        IacType::String => "str"@,
        IacType::Any => "str"@,
    }
}

/// The `argument_spec` type of the elements of a list or a set.
pub open spec fn ansible_elements_of(ty: IacType) -> Option<Seq<char>> {
    match ty {
        IacType::List(inner) => Some(ansible_type_of(*inner)),
        IacType::SetOf(inner) => Some(ansible_type_of(*inner)),
        _ => None,
    }
}

/// A value for an attribute of this type in a test playbook.
pub open spec fn test_value_of(ty: IacType) -> Seq<char> {
    match ty {
        IacType::Integer => "1"@,
        IacType::Float => "1.0"@,
        IacType::Boolean => "true"@,
        IacType::Enum { values, .. } => if values@.len() == 0 {
            "\"\""@
        } else {
            "\""@ + values@[0]@ + "\""@
        },
        _ => "\"test_value\""@,
    }
}

/// Maps types to Ansible `argument_spec` type strings.
pub trait AnsibleTypeExt {
    /// What `ansible_type` returns.
    spec fn ansible_type_text(&self) -> Seq<char>;

    /// What `ansible_elements` returns.
    spec fn ansible_elements_text(&self) -> Option<Seq<char>>;

    /// Ansible `argument_spec` type string for this type.
    ///
    /// For an enum the underlying type is inspected, so an enum over integers
    /// maps to `"int"`, not `"str"`.
    #[must_use]
    fn ansible_type(&self) -> (res: &'static str)
        ensures
            res@ == self.ansible_type_text(),
    ;

    /// Element type string for lists and sets, `None` for all other types.
    #[must_use]
    fn ansible_elements(&self) -> (res: Option<&'static str>)
        ensures
            match res {
                Some(elements) => self.ansible_elements_text() == Some(elements@),
                None => self.ansible_elements_text() is None,
            },
    ;
}

impl AnsibleTypeExt for IacType {
    open spec fn ansible_type_text(&self) -> Seq<char> {
        ansible_type_of(*self)
    }

    open spec fn ansible_elements_text(&self) -> Option<Seq<char>> {
        ansible_elements_of(*self)
    }

    fn ansible_type(&self) -> (res: &'static str)
        decreases self,
    {
        match self {
            IacType::Integer => "int",
            IacType::Float | IacType::Numeric => "float",
            IacType::Boolean => "bool",
            IacType::List(_) | IacType::SetOf(_) => "list",
            IacType::MapOf(_) | IacType::Object { .. } => "dict",
            IacType::Enum { underlying, .. } => underlying.ansible_type(),
            IacType::String | IacType::Any => "str",
        }
    }

    fn ansible_elements(&self) -> (res: Option<&'static str>) {
        match self {
            IacType::List(inner) | IacType::SetOf(inner) => Some(inner.ansible_type()),
            _ => None,
        }
    }
}

/// Maps a type to the Ansible `argument_spec` type string.
#[must_use]
pub fn iac_type_to_ansible(ty: &IacType) -> (res: &'static str)
    ensures
        res@ == ansible_type_of(*ty),
{
    ty.ansible_type()
}

/// The `elements` type string of a list or a set.
#[must_use]
pub fn list_elements_type(ty: &IacType) -> (res: Option<&'static str>)
    ensures
        match res {
            Some(elements) => ansible_elements_of(*ty) == Some(elements@),
            None => ansible_elements_of(*ty) is None,
        },
{
    ty.ansible_elements()
}

/// Produces a representative YAML value for a type.
pub fn test_value_for_type(ty: &IacType) -> (res: String)
    ensures
        res@ == test_value_of(*ty),
{
    match ty {
        IacType::Integer => "1".to_owned(),
        IacType::Float => "1.0".to_owned(),
        IacType::Boolean => "true".to_owned(),
        IacType::Enum { values, .. } => {
            if values.len() == 0 {
                return "\"\"".to_owned();
            }
            let mut quoted: String = "\"".to_owned();
            quoted.append(values[0].as_str());
            quoted.append("\"");
            quoted
        },
        _ => "\"test_value\"".to_owned(),
    }
}

} // verus!
