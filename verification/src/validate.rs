//! The declared validation rules, enforced before any storage call: the API
//! contact intake, the contact status update, and the site's contact form.

use vstd::prelude::*;

use validator::ValidateEmail;

use crate::models::CreateContact;
use crate::models::CreateContactMessage;
use crate::models::UpdateContactStatus;
use crate::outcome::ApiError;
use crate::statements::contact_insert_params;
use crate::statements::contact_insert_stmt;
use crate::statements::contact_message_insert_params;
use crate::statements::contact_message_insert_stmt;
use crate::statements::contact_status_stmt;
use crate::text::blank;
use crate::text::contains_char;
use crate::text::has_char;
use crate::text::str_eq;
use crate::text::str_is_blank;
use crate::value::SqlValue;

verus! {

/// What the e-mail check of the `validator` crate accepts: a function of the
/// characters alone.
pub uninterp spec fn email_accepted(s: Seq<char>) -> bool;

/// Relies on validator's `ValidateEmail::validate_email` for `&str`: it
/// accepts or rejects on the characters alone, and its first test rejects an
/// empty string and one without an `@`.
#[verifier::external_body]
fn email_matches(s: &str) -> (r: bool)
    ensures
        r == email_accepted(s@),
        r ==> s@.len() > 0,
        r ==> contains_char(s@, '@'),
{
    s.validate_email()
}

/// The intake rule of the API contact endpoint, checked in order: the e-mail
/// must hold an `@`, and name and message must not trim to nothing. The
/// reply pins the first broken rule's message; only a payload passing all
/// three may reach storage.
pub fn validate_create_contact(c: &CreateContact) -> (r: Result<(), ApiError>)
    ensures
        !contains_char(c.email@, '@') ==> (r matches Err(e) && e matches ApiError::Validation(m)
            && m@ == "Invalid email address"@),
        contains_char(c.email@, '@') && blank(c.name@) ==> (r matches Err(e) && e matches
            ApiError::Validation(m) && m@ == "Name is required"@),
        contains_char(c.email@, '@') && !blank(c.name@) && blank(c.message@) ==> (r matches Err(e)
            && e matches ApiError::Validation(m) && m@ == "Message is required"@),
        r is Ok <==> contains_char(c.email@, '@') && !blank(c.name@) && !blank(c.message@),
{
    if !has_char(c.email.as_str(), '@') {
        return Err(ApiError::Validation(String::from_str("Invalid email address")));
    }
    if str_is_blank(c.name.as_str()) {
        return Err(ApiError::Validation(String::from_str("Name is required")));
    }
    if str_is_blank(c.message.as_str()) {
        return Err(ApiError::Validation(String::from_str("Message is required")));
    }
    Ok(())
}

/// The contact status values a payload may set.
pub open spec fn valid_status(s: Seq<char>) -> bool {
    s == "new"@ || s == "read"@ || s == "replied"@ || s == "archived"@
}

/// Whether a status value is one of the declared four.
pub fn status_is_valid(s: &str) -> (r: bool)
    ensures
        r == valid_status(s@),
{
    str_eq(s, "new") || str_eq(s, "read") || str_eq(s, "replied") || str_eq(s, "archived")
}

/// The decision of the contact status endpoint: an unknown status is
/// rejected before any storage call; a declared one yields the one fixed
/// statement with the status and identifier bound in that order.
pub fn decide_contact_status(id: i32, payload: UpdateContactStatus) -> (r: Result<
    (String, Vec<SqlValue>),
    ApiError,
>)
    ensures
        !valid_status(payload.status@) ==> (r matches Err(e) && e matches ApiError::Validation(m)
            && m@ == "Invalid status value"@),
        valid_status(payload.status@) ==> (r matches Ok(p) && p.0@
            == "UPDATE contacts SET status = $1 WHERE id = $2 RETURNING *"@ && p.1@ == seq![
            SqlValue::Text(payload.status),
            SqlValue::Int(id),
        ]),
{
    if !status_is_valid(payload.status.as_str()) {
        return Err(ApiError::Validation(String::from_str("Invalid status value")));
    }
    let stmt = String::from_str(contact_status_stmt());
    let params: Vec<SqlValue> = vec![SqlValue::Text(payload.status), SqlValue::Int(id)];
    proof {
        assert(params@ =~= seq![SqlValue::Text(payload.status), SqlValue::Int(id)]);
    }
    Ok((stmt, params))
}

/// The site's contact-form rules, checked in order: a name of 2 to 255
/// characters, an address the e-mail check accepts, a message of 10 to 5000
/// characters.
pub fn validate_contact_message(m: &CreateContactMessage) -> (r: Result<(), ApiError>)
    ensures
        r is Ok <==> 2 <= m.name@.len() <= 255 && email_accepted(m.email@) && 10 <= m.message@.len()
            <= 5000,
        !(2 <= m.name@.len() <= 255) ==> (r matches Err(e) && e matches ApiError::Validation(t)
            && t@ == "Name must be between 2 and 255 characters"@),
        2 <= m.name@.len() <= 255 && !email_accepted(m.email@) ==> (r matches Err(e) && e matches
            ApiError::Validation(t) && t@ == "Invalid email address"@),
        2 <= m.name@.len() <= 255 && email_accepted(m.email@) && !(10 <= m.message@.len() <= 5000)
            ==> (r matches Err(e) && e matches ApiError::Validation(t) && t@
            == "Message must be between 10 and 5000 characters"@),
{
    let name_len: usize = m.name.as_str().unicode_len();
    if name_len < 2 || name_len > 255 {
        return Err(ApiError::Validation(
            String::from_str("Name must be between 2 and 255 characters"),
        ));
    }
    if !email_matches(m.email.as_str()) {
        return Err(ApiError::Validation(String::from_str("Invalid email address")));
    }
    let message_len: usize = m.message.as_str().unicode_len();
    if message_len < 10 || message_len > 5000 {
        return Err(ApiError::Validation(
            String::from_str("Message must be between 10 and 5000 characters"),
        ));
    }
    Ok(())
}

/// The decision of the API contact intake: a payload breaking a rule is
/// rejected with that rule's message and nothing reaches storage; a valid
/// one yields exactly the insert statement with the payload's fields and the
/// connection's address and user agent bound after them.
pub fn plan_create_contact(payload: CreateContact, ip_address: String, user_agent: Option<String>)
    -> (r: Result<(String, Vec<SqlValue>), ApiError>)
    ensures
        r is Ok <==> contains_char(payload.email@, '@') && !blank(payload.name@) && !blank(
            payload.message@,
        ),
        (r matches Ok(p) ==> p.0@
            == "INSERT INTO contacts (name, email, subject, message, ip_address, user_agent, status) VALUES ($1, $2, $3, $4, $5, $6, 'new') RETURNING *"@
            && p.1@ == seq![
            SqlValue::Text(payload.name),
            SqlValue::Text(payload.email),
            SqlValue::OptText(payload.subject),
            SqlValue::Text(payload.message),
            SqlValue::OptText(Some(ip_address)),
            SqlValue::OptText(user_agent),
        ]),
        !contains_char(payload.email@, '@') ==> (r matches Err(e) && e matches
            ApiError::Validation(m) && m@ == "Invalid email address"@),
        contains_char(payload.email@, '@') && blank(payload.name@) ==> (r matches Err(e) && e
            matches ApiError::Validation(m) && m@ == "Name is required"@),
        contains_char(payload.email@, '@') && !blank(payload.name@) && blank(payload.message@)
            ==> (r matches Err(e) && e matches ApiError::Validation(m) && m@
            == "Message is required"@),
{
    match validate_create_contact(&payload) {
        Err(e) => Err(e),
        Ok(()) => {
            let stmt = String::from_str(contact_insert_stmt());
            let params = contact_insert_params(payload, ip_address, user_agent);
            Ok((stmt, params))
        },
    }
}

/// The decision of the site's contact form: a form breaking a rule is
/// rejected with that rule's message and nothing reaches storage; a valid
/// one yields exactly the insert statement with the three fields bound in
/// order.
pub fn plan_submit_contact(form: CreateContactMessage) -> (r: Result<
    (String, Vec<SqlValue>),
    ApiError,
>)
    ensures
        r is Ok <==> 2 <= form.name@.len() <= 255 && email_accepted(form.email@) && 10
            <= form.message@.len() <= 5000,
        (r matches Ok(p) ==> p.0@
            == "INSERT INTO contact_messages (name, email, message) VALUES ($1, $2, $3)"@ && p.1@
            == seq![
            SqlValue::Text(form.name),
            SqlValue::Text(form.email),
            SqlValue::Text(form.message),
        ]),
        (r matches Err(e) ==> e is Validation),
{
    match validate_contact_message(&form) {
        Err(e) => Err(e),
        Ok(()) => {
            let stmt = String::from_str(contact_message_insert_stmt());
            let params = contact_message_insert_params(form);
            Ok((stmt, params))
        },
    }
}

} // verus!
