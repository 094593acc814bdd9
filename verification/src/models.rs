//! The content entities of the service, in their stored and payload forms.
//!
//! Timestamps (`created_at`, `updated_at`, `last_updated`) are carried as Unix
//! timestamps, dates (`start_date`, `end_date`) as day numbers, and structured
//! resume content as JSON text: the storage layer assigns and interprets them,
//! the service only carries them through.

use vstd::prelude::*;

verus! {

/// A stored portfolio project.
#[derive(Debug, Clone, PartialEq)]
pub struct Project {
    pub id: i32,
    pub title: String,
    pub description: String,
    pub github_url: Option<String>,
    pub live_url: Option<String>,
    pub tech_stack: Vec<String>,
    pub year: Option<i32>,
    pub featured: bool,
    pub github_stars: i32,
    pub github_forks: i32,
    pub last_updated: Option<i64>,
    pub created_at: i64,
    pub updated_at: i64,
}

/// The payload for creating a project.
#[derive(Debug, Clone, PartialEq)]
pub struct CreateProject {
    pub title: String,
    pub description: String,
    pub github_url: Option<String>,
    pub live_url: Option<String>,
    pub tech_stack: Vec<String>,
    pub year: Option<i32>,
    pub featured: Option<bool>,
}

/// The payload for a partial update of a project: absent fields keep their
/// stored value.
#[derive(Debug, Clone, PartialEq)]
pub struct UpdateProject {
    pub title: Option<String>,
    pub description: Option<String>,
    pub github_url: Option<String>,
    pub live_url: Option<String>,
    pub tech_stack: Option<Vec<String>>,
    pub year: Option<i32>,
    pub featured: Option<bool>,
    pub github_stars: Option<i32>,
    pub github_forks: Option<i32>,
}

/// A stored skill.
#[derive(Debug, Clone, PartialEq)]
pub struct Skill {
    pub id: i32,
    pub name: String,
    pub category: String,
    pub proficiency: i32,
    pub icon: Option<String>,
    pub order_index: i32,
    pub created_at: i64,
    pub updated_at: i64,
}

/// The payload for creating a skill.
#[derive(Debug, Clone, PartialEq)]
pub struct CreateSkill {
    pub name: String,
    pub category: String,
    pub proficiency: i32,
    pub icon: Option<String>,
    pub order_index: Option<i32>,
}

/// The payload for a partial update of a skill.
#[derive(Debug, Clone, PartialEq)]
pub struct UpdateSkill {
    pub name: Option<String>,
    pub category: Option<String>,
    pub proficiency: Option<i32>,
    pub icon: Option<String>,
    pub order_index: Option<i32>,
}

/// A stored work experience.
#[derive(Debug, Clone, PartialEq)]
pub struct Experience {
    pub id: i32,
    pub company: String,
    pub position: String,
    pub description: Option<String>,
    pub start_date: i64,
    pub end_date: Option<i64>,
    pub is_current: bool,
    pub location: Option<String>,
    pub tech_stack: Vec<String>,
    pub created_at: i64,
    pub updated_at: i64,
}

/// The payload for creating an experience.
#[derive(Debug, Clone, PartialEq)]
pub struct CreateExperience {
    pub company: String,
    pub position: String,
    pub description: Option<String>,
    pub start_date: i64,
    pub end_date: Option<i64>,
    pub is_current: Option<bool>,
    pub location: Option<String>,
    pub tech_stack: Vec<String>,
}

/// The payload for a partial update of an experience. No endpoint serves it;
/// the shape is part of the public model.
#[derive(Debug, Clone, PartialEq)]
pub struct UpdateExperience {
    pub company: Option<String>,
    pub position: Option<String>,
    pub description: Option<String>,
    pub start_date: Option<i64>,
    pub end_date: Option<i64>,
    pub is_current: Option<bool>,
    pub location: Option<String>,
    pub tech_stack: Option<Vec<String>>,
}

/// A stored contact message of the API service, with the request metadata
/// captured at submission.
#[derive(Debug, Clone, PartialEq)]
pub struct Contact {
    pub id: i32,
    pub name: String,
    pub email: String,
    pub subject: Option<String>,
    pub message: String,
    pub ip_address: Option<String>,
    pub user_agent: Option<String>,
    pub status: String,
    pub created_at: i64,
    pub updated_at: i64,
}

/// The client payload of a contact submission. It never carries the caller's
/// address or user agent: those come from the connection.
#[derive(Debug, Clone, PartialEq)]
pub struct CreateContact {
    pub name: String,
    pub email: String,
    pub subject: Option<String>,
    pub message: String,
}

/// The payload for changing a contact's status.
#[derive(Debug, Clone, PartialEq)]
pub struct UpdateContactStatus {
    pub status: String,
}

/// A stored resume section, its content carried as JSON text.
#[derive(Debug, Clone, PartialEq)]
pub struct ResumeData {
    pub id: i32,
    pub section: String,
    pub content: String,
    pub order_index: i32,
    pub is_visible: bool,
    pub created_at: i64,
    pub updated_at: i64,
}

/// The payload for creating a resume section.
#[derive(Debug, Clone, PartialEq)]
pub struct CreateResumeData {
    pub section: String,
    pub content: String,
    pub order_index: Option<i32>,
    pub is_visible: Option<bool>,
}

/// The payload for a partial update of a resume section.
#[derive(Debug, Clone, PartialEq)]
pub struct UpdateResumeData {
    pub section: Option<String>,
    pub content: Option<String>,
    pub order_index: Option<i32>,
    pub is_visible: Option<bool>,
}

/// A stored message of the site's contact form.
#[derive(Debug, Clone, PartialEq)]
pub struct ContactMessage {
    pub id: i32,
    pub name: String,
    pub email: String,
    pub message: String,
    pub created_at: i64,
    pub read: bool,
}

/// The payload of the site's contact form.
#[derive(Debug, Clone, PartialEq)]
pub struct CreateContactMessage {
    pub name: String,
    pub email: String,
    pub message: String,
}

/// The fixed reply of the repository-sync stub.
#[derive(Debug, Clone, PartialEq)]
pub struct SyncResponse {
    pub message: String,
    pub synced_count: usize,
    pub updated_count: usize,
    pub errors: Vec<String>,
}

/// The liveness reply.
#[derive(Debug, Clone, PartialEq)]
pub struct HealthResponse {
    pub status: String,
    pub message: String,
    pub version: String,
}

} // verus!
