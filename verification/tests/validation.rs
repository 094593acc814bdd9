use portfolio::models::CreateContact;
use portfolio::models::CreateContactMessage;
use portfolio::models::UpdateContactStatus;
use portfolio::outcome::ApiError;
use portfolio::validate::decide_contact_status;
use portfolio::validate::plan_create_contact;
use portfolio::validate::plan_submit_contact;
use portfolio::validate::status_is_valid;
use portfolio::validate::validate_contact_message;
use portfolio::validate::validate_create_contact;
use portfolio::value::SqlValue;

fn valid_contact() -> CreateContact {
    CreateContact {
        name: "Ada".to_string(),
        email: "ada@example.com".to_string(),
        subject: Some("Hello".to_string()),
        message: "A question about the projects page.".to_string(),
    }
}

#[test]
fn contact_with_invalid_email_is_rejected_before_storage() {
    let payload = CreateContact { email: "not-an-email".to_string(), ..valid_contact() };
    let err = validate_create_contact(&payload).expect_err("the address holds no @");
    assert_eq!(err, ApiError::Validation("Invalid email address".to_string()));
    assert_eq!(err.status(), 400);
    let plan = plan_create_contact(payload, "127.0.0.1".to_string(), None);
    assert!(plan.is_err(), "no statement may be produced for a rejected payload");
}

#[test]
fn contact_with_blank_name_is_rejected() {
    let payload = CreateContact { name: " \t ".to_string(), ..valid_contact() };
    let err = validate_create_contact(&payload).expect_err("the name trims to nothing");
    assert_eq!(err, ApiError::Validation("Name is required".to_string()));
}

#[test]
fn contact_with_blank_message_is_rejected() {
    let payload = CreateContact { message: "  ".to_string(), ..valid_contact() };
    let err = validate_create_contact(&payload).expect_err("the message trims to nothing");
    assert_eq!(err, ApiError::Validation("Message is required".to_string()));
}

#[test]
fn contact_insert_stores_ip_and_user_agent_beside_the_payload() {
    let (stmt, params) = plan_create_contact(
        valid_contact(),
        "203.0.113.9".to_string(),
        Some("curl/8.0".to_string()),
    )
    .expect("the payload passes every rule");
    assert_eq!(
        stmt,
        "INSERT INTO contacts (name, email, subject, message, ip_address, user_agent, status) \
         VALUES ($1, $2, $3, $4, $5, $6, 'new') RETURNING *"
    );
    assert_eq!(
        params,
        vec![
            SqlValue::Text("Ada".to_string()),
            SqlValue::Text("ada@example.com".to_string()),
            SqlValue::OptText(Some("Hello".to_string())),
            SqlValue::Text("A question about the projects page.".to_string()),
            SqlValue::OptText(Some("203.0.113.9".to_string())),
            SqlValue::OptText(Some("curl/8.0".to_string())),
        ]
    );
}

#[test]
fn contact_insert_stores_absent_user_agent_as_null() {
    let (_, params) =
        plan_create_contact(valid_contact(), "127.0.0.1".to_string(), None).expect("valid");
    assert_eq!(params[5], SqlValue::OptText(None));
}

#[test]
fn unknown_status_is_rejected_with_400_and_no_statement() {
    let payload = UpdateContactStatus { status: "closed".to_string() };
    let err = decide_contact_status(3, payload).expect_err("closed is not a declared status");
    assert_eq!(err, ApiError::Validation("Invalid status value".to_string()));
    assert_eq!(err.status(), 400);
}

#[test]
fn each_declared_status_yields_the_fixed_statement() {
    for status in ["new", "read", "replied", "archived"] {
        assert!(status_is_valid(status));
        let payload = UpdateContactStatus { status: status.to_string() };
        let (stmt, params) = decide_contact_status(3, payload).expect("a declared status");
        assert_eq!(stmt, "UPDATE contacts SET status = $1 WHERE id = $2 RETURNING *");
        assert_eq!(params, vec![SqlValue::Text(status.to_string()), SqlValue::Int(3)]);
    }
    assert!(!status_is_valid("closed"));
    assert!(!status_is_valid(""));
}

fn valid_form() -> CreateContactMessage {
    CreateContactMessage {
        name: "Ada Lovelace".to_string(),
        email: "ada@example.com".to_string(),
        message: "I would like to talk about an engine.".to_string(),
    }
}

#[test]
fn form_with_valid_fields_passes_and_plans_the_insert() {
    assert!(validate_contact_message(&valid_form()).is_ok());
    let (stmt, params) = plan_submit_contact(valid_form()).expect("the form passes every rule");
    assert_eq!(stmt, "INSERT INTO contact_messages (name, email, message) VALUES ($1, $2, $3)");
    assert_eq!(
        params,
        vec![
            SqlValue::Text("Ada Lovelace".to_string()),
            SqlValue::Text("ada@example.com".to_string()),
            SqlValue::Text("I would like to talk about an engine.".to_string()),
        ]
    );
}

#[test]
fn form_with_short_name_is_rejected() {
    let form = CreateContactMessage { name: "A".to_string(), ..valid_form() };
    let err = validate_contact_message(&form).expect_err("one character is too short");
    assert_eq!(
        err,
        ApiError::Validation("Name must be between 2 and 255 characters".to_string())
    );
}

#[test]
fn form_with_invalid_email_is_rejected() {
    let form = CreateContactMessage { email: "not-an-email".to_string(), ..valid_form() };
    let err = validate_contact_message(&form).expect_err("the address holds no @");
    assert_eq!(err, ApiError::Validation("Invalid email address".to_string()));
    let form = CreateContactMessage { email: "a@b@c".to_string(), ..valid_form() };
    assert!(validate_contact_message(&form).is_err(), "the checker rejects a doubled @ user part");
}

#[test]
fn form_with_short_message_is_rejected() {
    let form = CreateContactMessage { message: "Hi".to_string(), ..valid_form() };
    let err = validate_contact_message(&form).expect_err("two characters are too short");
    assert_eq!(
        err,
        ApiError::Validation("Message must be between 10 and 5000 characters".to_string())
    );
}

#[test]
fn form_lengths_count_characters_not_bytes() {
    let form = CreateContactMessage { name: "\u{e9}\u{e9}".to_string(), ..valid_form() };
    assert!(
        validate_contact_message(&form).is_ok(),
        "two accented characters are two characters, whatever their byte length"
    );
}
