//! The fixed statements of the repositories, and the binding lists of the
//! insert statements — each insert applying the declared defaults for the
//! optional payload fields.

use vstd::prelude::*;

use crate::models::CreateContact;
use crate::models::CreateContactMessage;
use crate::models::CreateExperience;
use crate::models::CreateProject;
use crate::models::CreateResumeData;
use crate::models::CreateSkill;
use crate::value::SqlValue;

verus! {

/// The project listing, featured first, then by year and creation time.
pub fn projects_list_stmt() -> (r: &'static str)
    ensures
        r@ == "SELECT * FROM projects ORDER BY featured DESC, year DESC, created_at DESC"@,
{
    "SELECT * FROM projects ORDER BY featured DESC, year DESC, created_at DESC"
}

/// The featured-project listing.
pub fn featured_projects_stmt() -> (r: &'static str)
    ensures
        r@ == "SELECT * FROM projects WHERE featured = true ORDER BY year DESC, created_at DESC"@,
{
    "SELECT * FROM projects WHERE featured = true ORDER BY year DESC, created_at DESC"
}

/// One project by identifier.
pub fn project_by_id_stmt() -> (r: &'static str)
    ensures
        r@ == "SELECT * FROM projects WHERE id = $1"@,
{
    "SELECT * FROM projects WHERE id = $1"
}

/// The project insert; the stored row answers.
pub fn project_insert_stmt() -> (r: &'static str)
    ensures
        r@
            == "INSERT INTO projects (title, description, github_url, live_url, tech_stack, year, featured) VALUES ($1, $2, $3, $4, $5, $6, $7) RETURNING *"@,
{
    "INSERT INTO projects (title, description, github_url, live_url, tech_stack, year, featured) VALUES ($1, $2, $3, $4, $5, $6, $7) RETURNING *"
}

/// The project delete.
pub fn project_delete_stmt() -> (r: &'static str)
    ensures
        r@ == "DELETE FROM projects WHERE id = $1"@,
{
    "DELETE FROM projects WHERE id = $1"
}

/// The bindings of the project insert, in placeholder order; an absent
/// `featured` defaults to false.
pub fn project_insert_params(c: CreateProject) -> (r: Vec<SqlValue>)
    ensures
        r@ == seq![
            SqlValue::Text(c.title),
            SqlValue::Text(c.description),
            SqlValue::OptText(c.github_url),
            SqlValue::OptText(c.live_url),
            SqlValue::TextArray(c.tech_stack),
            SqlValue::OptInt(c.year),
            SqlValue::Bool(match c.featured {
                Some(b) => b,
                None => false,
            }),
        ],
{
    let featured = match c.featured {
        Some(b) => b,
        None => false,
    };
    let r: Vec<SqlValue> = vec![
        SqlValue::Text(c.title),
        SqlValue::Text(c.description),
        SqlValue::OptText(c.github_url),
        SqlValue::OptText(c.live_url),
        SqlValue::TextArray(c.tech_stack),
        SqlValue::OptInt(c.year),
        SqlValue::Bool(featured),
    ];
    proof {
        assert(r@ =~= seq![
            SqlValue::Text(c.title),
            SqlValue::Text(c.description),
            SqlValue::OptText(c.github_url),
            SqlValue::OptText(c.live_url),
            SqlValue::TextArray(c.tech_stack),
            SqlValue::OptInt(c.year),
            SqlValue::Bool(match c.featured {
                Some(b) => b,
                None => false,
            }),
        ]);
    }
    r
}

/// The skill listing, by category, rank and name.
pub fn skills_list_stmt() -> (r: &'static str)
    ensures
        r@ == "SELECT * FROM skills ORDER BY category, order_index, name"@,
{
    "SELECT * FROM skills ORDER BY category, order_index, name"
}

/// One skill by identifier.
pub fn skill_by_id_stmt() -> (r: &'static str)
    ensures
        r@ == "SELECT * FROM skills WHERE id = $1"@,
{
    "SELECT * FROM skills WHERE id = $1"
}

/// The skill insert.
pub fn skill_insert_stmt() -> (r: &'static str)
    ensures
        r@
            == "INSERT INTO skills (name, category, proficiency, icon, order_index) VALUES ($1, $2, $3, $4, $5) RETURNING *"@,
{
    "INSERT INTO skills (name, category, proficiency, icon, order_index) VALUES ($1, $2, $3, $4, $5) RETURNING *"
}

/// The skill delete.
pub fn skill_delete_stmt() -> (r: &'static str)
    ensures
        r@ == "DELETE FROM skills WHERE id = $1"@,
{
    "DELETE FROM skills WHERE id = $1"
}

/// The bindings of the skill insert; an absent `order_index` defaults to 0.
pub fn skill_insert_params(c: CreateSkill) -> (r: Vec<SqlValue>)
    ensures
        r@ == seq![
            SqlValue::Text(c.name),
            SqlValue::Text(c.category),
            SqlValue::Int(c.proficiency),
            SqlValue::OptText(c.icon),
            SqlValue::Int(match c.order_index {
                Some(n) => n,
                None => 0,
            }),
        ],
{
    let order_index = match c.order_index {
        Some(n) => n,
        None => 0,
    };
    let r: Vec<SqlValue> = vec![
        SqlValue::Text(c.name),
        SqlValue::Text(c.category),
        SqlValue::Int(c.proficiency),
        SqlValue::OptText(c.icon),
        SqlValue::Int(order_index),
    ];
    proof {
        assert(r@ =~= seq![
            SqlValue::Text(c.name),
            SqlValue::Text(c.category),
            SqlValue::Int(c.proficiency),
            SqlValue::OptText(c.icon),
            SqlValue::Int(match c.order_index {
                Some(n) => n,
                None => 0,
            }),
        ]);
    }
    r
}

/// The experience listing, current positions first, then latest start first.
pub fn experiences_list_stmt() -> (r: &'static str)
    ensures
        r@ == "SELECT * FROM experiences ORDER BY is_current DESC, start_date DESC"@,
{
    "SELECT * FROM experiences ORDER BY is_current DESC, start_date DESC"
}

/// One experience by identifier.
pub fn experience_by_id_stmt() -> (r: &'static str)
    ensures
        r@ == "SELECT * FROM experiences WHERE id = $1"@,
{
    "SELECT * FROM experiences WHERE id = $1"
}

/// The experience insert.
pub fn experience_insert_stmt() -> (r: &'static str)
    ensures
        r@
            == "INSERT INTO experiences (company, position, description, start_date, end_date, is_current, location, tech_stack) VALUES ($1, $2, $3, $4, $5, $6, $7, $8) RETURNING *"@,
{
    "INSERT INTO experiences (company, position, description, start_date, end_date, is_current, location, tech_stack) VALUES ($1, $2, $3, $4, $5, $6, $7, $8) RETURNING *"
}

/// The experience delete.
pub fn experience_delete_stmt() -> (r: &'static str)
    ensures
        r@ == "DELETE FROM experiences WHERE id = $1"@,
{
    "DELETE FROM experiences WHERE id = $1"
}

/// The bindings of the experience insert; an absent `is_current` defaults to
/// false.
pub fn experience_insert_params(c: CreateExperience) -> (r: Vec<SqlValue>)
    ensures
        r@ == seq![
            SqlValue::Text(c.company),
            SqlValue::Text(c.position),
            SqlValue::OptText(c.description),
            SqlValue::Date(c.start_date),
            SqlValue::OptDate(c.end_date),
            SqlValue::Bool(match c.is_current {
                Some(b) => b,
                None => false,
            }),
            SqlValue::OptText(c.location),
            SqlValue::TextArray(c.tech_stack),
        ],
{
    let is_current = match c.is_current {
        Some(b) => b,
        None => false,
    };
    let r: Vec<SqlValue> = vec![
        SqlValue::Text(c.company),
        SqlValue::Text(c.position),
        SqlValue::OptText(c.description),
        SqlValue::Date(c.start_date),
        SqlValue::OptDate(c.end_date),
        SqlValue::Bool(is_current),
        SqlValue::OptText(c.location),
        SqlValue::TextArray(c.tech_stack),
    ];
    proof {
        assert(r@ =~= seq![
            SqlValue::Text(c.company),
            SqlValue::Text(c.position),
            SqlValue::OptText(c.description),
            SqlValue::Date(c.start_date),
            SqlValue::OptDate(c.end_date),
            SqlValue::Bool(match c.is_current {
                Some(b) => b,
                None => false,
            }),
            SqlValue::OptText(c.location),
            SqlValue::TextArray(c.tech_stack),
        ]);
    }
    r
}

/// The contact listing, newest first.
pub fn contacts_list_stmt() -> (r: &'static str)
    ensures
        r@ == "SELECT * FROM contacts ORDER BY created_at DESC"@,
{
    "SELECT * FROM contacts ORDER BY created_at DESC"
}

/// One contact by identifier.
pub fn contact_by_id_stmt() -> (r: &'static str)
    ensures
        r@ == "SELECT * FROM contacts WHERE id = $1"@,
{
    "SELECT * FROM contacts WHERE id = $1"
}

/// The contact insert: the status column is fixed to 'new' in the statement
/// itself, never bound from the payload.
pub fn contact_insert_stmt() -> (r: &'static str)
    ensures
        r@
            == "INSERT INTO contacts (name, email, subject, message, ip_address, user_agent, status) VALUES ($1, $2, $3, $4, $5, $6, 'new') RETURNING *"@,
{
    "INSERT INTO contacts (name, email, subject, message, ip_address, user_agent, status) VALUES ($1, $2, $3, $4, $5, $6, 'new') RETURNING *"
}

/// The contact status update.
pub fn contact_status_stmt() -> (r: &'static str)
    ensures
        r@ == "UPDATE contacts SET status = $1 WHERE id = $2 RETURNING *"@,
{
    "UPDATE contacts SET status = $1 WHERE id = $2 RETURNING *"
}

/// The contact delete.
pub fn contact_delete_stmt() -> (r: &'static str)
    ensures
        r@ == "DELETE FROM contacts WHERE id = $1"@,
{
    "DELETE FROM contacts WHERE id = $1"
}

/// The bindings of the contact insert, in placeholder order. The caller's
/// address and user agent come from the connection, never from the payload,
/// and are stored beside it.
pub fn contact_insert_params(c: CreateContact, ip_address: String, user_agent: Option<String>) -> (r:
    Vec<SqlValue>)
    ensures
        r@ == seq![
            SqlValue::Text(c.name),
            SqlValue::Text(c.email),
            SqlValue::OptText(c.subject),
            SqlValue::Text(c.message),
            SqlValue::OptText(Some(ip_address)),
            SqlValue::OptText(user_agent),
        ],
{
    let r: Vec<SqlValue> = vec![
        SqlValue::Text(c.name),
        SqlValue::Text(c.email),
        SqlValue::OptText(c.subject),
        SqlValue::Text(c.message),
        SqlValue::OptText(Some(ip_address)),
        SqlValue::OptText(user_agent),
    ];
    proof {
        assert(r@ =~= seq![
            SqlValue::Text(c.name),
            SqlValue::Text(c.email),
            SqlValue::OptText(c.subject),
            SqlValue::Text(c.message),
            SqlValue::OptText(Some(ip_address)),
            SqlValue::OptText(user_agent),
        ]);
    }
    r
}

/// The visible resume listing, by rank and section.
pub fn resume_visible_stmt() -> (r: &'static str)
    ensures
        r@ == "SELECT * FROM resume_data WHERE is_visible = true ORDER BY order_index, section"@,
{
    "SELECT * FROM resume_data WHERE is_visible = true ORDER BY order_index, section"
}

/// The visible rows of one resume section, by rank.
pub fn resume_section_stmt() -> (r: &'static str)
    ensures
        r@
            == "SELECT * FROM resume_data WHERE section = $1 AND is_visible = true ORDER BY order_index"@,
{
    "SELECT * FROM resume_data WHERE section = $1 AND is_visible = true ORDER BY order_index"
}

/// The resume insert.
pub fn resume_insert_stmt() -> (r: &'static str)
    ensures
        r@
            == "INSERT INTO resume_data (section, content, order_index, is_visible) VALUES ($1, $2, $3, $4) RETURNING *"@,
{
    "INSERT INTO resume_data (section, content, order_index, is_visible) VALUES ($1, $2, $3, $4) RETURNING *"
}

/// The resume delete.
pub fn resume_delete_stmt() -> (r: &'static str)
    ensures
        r@ == "DELETE FROM resume_data WHERE id = $1"@,
{
    "DELETE FROM resume_data WHERE id = $1"
}

/// The bindings of the resume insert; an absent `order_index` defaults to 0,
/// an absent `is_visible` to true.
pub fn resume_insert_params(c: CreateResumeData) -> (r: Vec<SqlValue>)
    ensures
        r@ == seq![
            SqlValue::Text(c.section),
            SqlValue::Json(c.content),
            SqlValue::Int(match c.order_index {
                Some(n) => n,
                None => 0,
            }),
            SqlValue::Bool(match c.is_visible {
                Some(b) => b,
                None => true,
            }),
        ],
{
    let order_index = match c.order_index {
        Some(n) => n,
        None => 0,
    };
    let is_visible = match c.is_visible {
        Some(b) => b,
        None => true,
    };
    let r: Vec<SqlValue> = vec![
        SqlValue::Text(c.section),
        SqlValue::Json(c.content),
        SqlValue::Int(order_index),
        SqlValue::Bool(is_visible),
    ];
    proof {
        assert(r@ =~= seq![
            SqlValue::Text(c.section),
            SqlValue::Json(c.content),
            SqlValue::Int(match c.order_index {
                Some(n) => n,
                None => 0,
            }),
            SqlValue::Bool(match c.is_visible {
                Some(b) => b,
                None => true,
            }),
        ]);
    }
    r
}

/// The site's contact-form insert.
pub fn contact_message_insert_stmt() -> (r: &'static str)
    ensures
        r@ == "INSERT INTO contact_messages (name, email, message) VALUES ($1, $2, $3)"@,
{
    "INSERT INTO contact_messages (name, email, message) VALUES ($1, $2, $3)"
}

/// The bindings of the site's contact-form insert.
pub fn contact_message_insert_params(m: CreateContactMessage) -> (r: Vec<SqlValue>)
    ensures
        r@ == seq![SqlValue::Text(m.name), SqlValue::Text(m.email), SqlValue::Text(m.message)],
{
    let r: Vec<SqlValue> = vec![
        SqlValue::Text(m.name),
        SqlValue::Text(m.email),
        SqlValue::Text(m.message),
    ];
    proof {
        assert(r@ =~= seq![
            SqlValue::Text(m.name),
            SqlValue::Text(m.email),
            SqlValue::Text(m.message),
        ]);
    }
    r
}

} // verus!
