//! The paying customer: e-mail, name and taxpayer document, each validated.

use vstd::prelude::*;

use crate::domain::error::ValidationError;
use crate::domain::value_objects::customer::document::{Document, DocumentType, document_valid, only_digits};
use crate::domain::value_objects::customer::email::{Email, email_shape, normalized_email};
use crate::domain::value_objects::customer::name::{Name, name_length_ok};
use crate::text::trim;

verus! {

/// The paying customer.
#[derive(Debug, PartialEq)]
pub struct Payer {
    pub email: Email,
    pub name: Name,
    pub document: Document,
}

impl Clone for Payer {
    fn clone(&self) -> (r: Self)
        ensures
            r.email@ == self.email@,
            r.name@ == self.name@,
            r.document == self.document,
    {
        Payer { email: self.email.clone(), name: self.name.clone(), document: self.document.clone() }
    }
}

impl Payer {
    /// Validates each part in turn (e-mail, then name, then document) and
    /// fails with the error of the first part that is refused.
    pub fn new(email: &str, name: &str, document: &str, document_type: DocumentType) -> (r: Result<
        Self,
        ValidationError,
    >)
        ensures
            !email_shape(normalized_email(email@)) ==> r == Err::<Payer, ValidationError>(
                ValidationError::InvalidEmail,
            ),
            email_shape(normalized_email(email@)) && !name_length_ok(trim(name@)) ==> r == Err::<
                Payer,
                ValidationError,
            >(ValidationError::InvalidName),
            email_shape(normalized_email(email@)) && name_length_ok(trim(name@)) && !document_valid(
                document@,
                document_type,
            ) ==> r == Err::<Payer, ValidationError>(ValidationError::InvalidDocument),
            r is Ok <==> email_shape(normalized_email(email@)) && name_length_ok(trim(name@))
                && document_valid(document@, document_type),
            r matches Ok(p) ==> {
                &&& p.email@ == normalized_email(email@)
                &&& p.name@ == trim(name@)
                &&& p.document.number_view() == only_digits(document@)
                &&& p.document.kind() == document_type
            },
    {
        Ok(Self {
            email: Email::new(email)?,
            name: Name::new(name)?,
            document: Document::new(document, document_type)?,
        })
    }

    /// Assembles a payer from parts that are already validated.
    pub fn from_parts(email: Email, name: Name, document: Document) -> (r: Self)
        ensures
            r.email == email,
            r.name == name,
            r.document == document,
    {
        Self { email, name, document }
    }
}

} // verus!
