//! The partial-update plans of the three updatable entities, and the
//! decision each update endpoint takes: a missing row, a no-op, or one
//! statement built by the builder from the fixed, declared column order.

use vstd::prelude::*;

use crate::builder::build_update;
use crate::builder::fields_view;
use crate::builder::present;
use crate::builder::present_cols;
use crate::builder::present_vals;
use crate::builder::update_stmt;
use crate::models::Project;
use crate::models::ResumeData;
use crate::models::Skill;
use crate::models::UpdateProject;
use crate::models::UpdateResumeData;
use crate::models::UpdateSkill;
use crate::value::SqlValue;

verus! {

/// A present text field, as a binding.
pub open spec fn opt_text(v: Option<String>) -> Option<SqlValue> {
    match v {
        Some(s) => Some(SqlValue::Text(s)),
        None => None,
    }
}

/// A present integer field, as a binding.
pub open spec fn opt_int(v: Option<i32>) -> Option<SqlValue> {
    match v {
        Some(n) => Some(SqlValue::Int(n)),
        None => None,
    }
}

/// A present boolean field, as a binding.
pub open spec fn opt_bool(v: Option<bool>) -> Option<SqlValue> {
    match v {
        Some(b) => Some(SqlValue::Bool(b)),
        None => None,
    }
}

/// A present text-array field, as a binding.
pub open spec fn opt_array(v: Option<Vec<String>>) -> Option<SqlValue> {
    match v {
        Some(a) => Some(SqlValue::TextArray(a)),
        None => None,
    }
}

/// A present JSON field, as a binding.
pub open spec fn opt_json(v: Option<String>) -> Option<SqlValue> {
    match v {
        Some(s) => Some(SqlValue::Json(s)),
        None => None,
    }
}

/// The declared column order of a project update.
pub open spec fn project_fields(u: UpdateProject) -> Seq<(Seq<char>, Option<SqlValue>)> {
    seq![
        ("title"@, opt_text(u.title)),
        ("description"@, opt_text(u.description)),
        ("github_url"@, opt_text(u.github_url)),
        ("live_url"@, opt_text(u.live_url)),
        ("tech_stack"@, opt_array(u.tech_stack)),
        ("year"@, opt_int(u.year)),
        ("featured"@, opt_bool(u.featured)),
        ("github_stars"@, opt_int(u.github_stars)),
        ("github_forks"@, opt_int(u.github_forks)),
    ]
}

/// The declared column order of a skill update.
pub open spec fn skill_fields(u: UpdateSkill) -> Seq<(Seq<char>, Option<SqlValue>)> {
    seq![
        ("name"@, opt_text(u.name)),
        ("category"@, opt_text(u.category)),
        ("proficiency"@, opt_int(u.proficiency)),
        ("icon"@, opt_text(u.icon)),
        ("order_index"@, opt_int(u.order_index)),
    ]
}

/// The declared column order of a resume-section update.
pub open spec fn resume_fields(u: UpdateResumeData) -> Seq<(Seq<char>, Option<SqlValue>)> {
    seq![
        ("section"@, opt_text(u.section)),
        ("content"@, opt_json(u.content)),
        ("order_index"@, opt_int(u.order_index)),
        ("is_visible"@, opt_bool(u.is_visible)),
    ]
}

/// The update plan for one project: the statement over exactly the present
/// columns, or nothing when no field is present.
pub fn plan_update_project(id: i32, u: UpdateProject) -> (r: Option<(String, Vec<SqlValue>)>)
    ensures
        r is None <==> present(project_fields(u)).len() == 0,
        (r matches Some(p) ==> p.0@ == update_stmt("projects"@, present_cols(project_fields(u)))
            && p.1@ == present_vals(project_fields(u)).push(SqlValue::Int(id))),
{
    let mut fields: Vec<(&str, Option<SqlValue>)> = Vec::new();
    fields.push(("title", match u.title {
        Some(s) => Some(SqlValue::Text(s)),
        None => None,
    }));
    fields.push(("description", match u.description {
        Some(s) => Some(SqlValue::Text(s)),
        None => None,
    }));
    fields.push(("github_url", match u.github_url {
        Some(s) => Some(SqlValue::Text(s)),
        None => None,
    }));
    fields.push(("live_url", match u.live_url {
        Some(s) => Some(SqlValue::Text(s)),
        None => None,
    }));
    fields.push(("tech_stack", match u.tech_stack {
        Some(a) => Some(SqlValue::TextArray(a)),
        None => None,
    }));
    fields.push(("year", match u.year {
        Some(n) => Some(SqlValue::Int(n)),
        None => None,
    }));
    fields.push(("featured", match u.featured {
        Some(b) => Some(SqlValue::Bool(b)),
        None => None,
    }));
    fields.push(("github_stars", match u.github_stars {
        Some(n) => Some(SqlValue::Int(n)),
        None => None,
    }));
    fields.push(("github_forks", match u.github_forks {
        Some(n) => Some(SqlValue::Int(n)),
        None => None,
    }));
    proof {
        assert(fields_view(fields@) =~= project_fields(u));
    }
    build_update("projects", fields, id)
}

/// The update plan for one skill.
pub fn plan_update_skill(id: i32, u: UpdateSkill) -> (r: Option<(String, Vec<SqlValue>)>)
    ensures
        r is None <==> present(skill_fields(u)).len() == 0,
        (r matches Some(p) ==> p.0@ == update_stmt("skills"@, present_cols(skill_fields(u)))
            && p.1@ == present_vals(skill_fields(u)).push(SqlValue::Int(id))),
{
    let mut fields: Vec<(&str, Option<SqlValue>)> = Vec::new();
    fields.push(("name", match u.name {
        Some(s) => Some(SqlValue::Text(s)),
        None => None,
    }));
    fields.push(("category", match u.category {
        Some(s) => Some(SqlValue::Text(s)),
        None => None,
    }));
    fields.push(("proficiency", match u.proficiency {
        Some(n) => Some(SqlValue::Int(n)),
        None => None,
    }));
    fields.push(("icon", match u.icon {
        Some(s) => Some(SqlValue::Text(s)),
        None => None,
    }));
    fields.push(("order_index", match u.order_index {
        Some(n) => Some(SqlValue::Int(n)),
        None => None,
    }));
    proof {
        assert(fields_view(fields@) =~= skill_fields(u));
    }
    build_update("skills", fields, id)
}

/// The update plan for one resume section.
pub fn plan_update_resume(id: i32, u: UpdateResumeData) -> (r: Option<(String, Vec<SqlValue>)>)
    ensures
        r is None <==> present(resume_fields(u)).len() == 0,
        (r matches Some(p) ==> p.0@ == update_stmt("resume_data"@, present_cols(resume_fields(u)))
            && p.1@ == present_vals(resume_fields(u)).push(SqlValue::Int(id))),
{
    let mut fields: Vec<(&str, Option<SqlValue>)> = Vec::new();
    fields.push(("section", match u.section {
        Some(s) => Some(SqlValue::Text(s)),
        None => None,
    }));
    fields.push(("content", match u.content {
        Some(s) => Some(SqlValue::Json(s)),
        None => None,
    }));
    fields.push(("order_index", match u.order_index {
        Some(n) => Some(SqlValue::Int(n)),
        None => None,
    }));
    fields.push(("is_visible", match u.is_visible {
        Some(b) => Some(SqlValue::Bool(b)),
        None => None,
    }));
    proof {
        assert(fields_view(fields@) =~= resume_fields(u));
    }
    build_update("resume_data", fields, id)
}

/// Law: a project update payload has no present field exactly when every one
/// of its nine fields is absent.
pub proof fn lemma_project_no_fields(u: UpdateProject)
    ensures
        present(project_fields(u)).len() == 0 <==> (u.title is None && u.description is None
            && u.github_url is None && u.live_url is None && u.tech_stack is None && u.year is None
            && u.featured is None && u.github_stars is None && u.github_forks is None),
{
    reveal_with_fuel(present, 11);
}

/// Law: a skill update payload has no present field exactly when every one of
/// its five fields is absent.
pub proof fn lemma_skill_no_fields(u: UpdateSkill)
    ensures
        present(skill_fields(u)).len() == 0 <==> (u.name is None && u.category is None
            && u.proficiency is None && u.icon is None && u.order_index is None),
{
    reveal_with_fuel(present, 7);
}

/// Law: a resume update payload has no present field exactly when every one
/// of its four fields is absent.
pub proof fn lemma_resume_no_fields(u: UpdateResumeData)
    ensures
        present(resume_fields(u)).len() == 0 <==> (u.section is None && u.content is None
            && u.order_index is None && u.is_visible is None),
{
    reveal_with_fuel(present, 6);
}

/// What one update endpoint decides after the existence check.
#[derive(Debug, Clone, PartialEq)]
pub enum UpdateDecision<R> {
    /// The identifier names no row: not-found, nothing executed.
    Missing,
    /// No field was present: no write at all, the stored record answers
    /// unchanged.
    Unchanged(R),
    /// Execute the statement with the bindings, in that order; the storage
    /// layer answers with the updated row.
    Execute(String, Vec<SqlValue>),
}

/// The decision of the project update endpoint.
pub fn decide_update_project(existing: Option<Project>, id: i32, u: UpdateProject) -> (r:
    UpdateDecision<Project>)
    ensures
        existing is None ==> r is Missing,
        (existing is Some && present(project_fields(u)).len() == 0 ==> (r matches UpdateDecision::Unchanged(x) && x == existing->0)),
        (existing is Some && present(project_fields(u)).len() > 0 ==> (r matches UpdateDecision::Execute(s, p) && s@
            == update_stmt("projects"@, present_cols(project_fields(u))) && p@ == present_vals(
            project_fields(u),
        ).push(SqlValue::Int(id)))),
{
    match existing {
        None => UpdateDecision::Missing,
        Some(e) => match plan_update_project(id, u) {
            None => UpdateDecision::Unchanged(e),
            Some((stmt, params)) => UpdateDecision::Execute(stmt, params),
        },
    }
}

/// The decision of the skill update endpoint.
pub fn decide_update_skill(existing: Option<Skill>, id: i32, u: UpdateSkill) -> (r: UpdateDecision<
    Skill,
>)
    ensures
        existing is None ==> r is Missing,
        (existing is Some && present(skill_fields(u)).len() == 0 ==> (r matches UpdateDecision::Unchanged(x) && x == existing->0)),
        (existing is Some && present(skill_fields(u)).len() > 0 ==> (r matches UpdateDecision::Execute(s, p) && s@
            == update_stmt("skills"@, present_cols(skill_fields(u))) && p@ == present_vals(
            skill_fields(u),
        ).push(SqlValue::Int(id)))),
{
    match existing {
        None => UpdateDecision::Missing,
        Some(e) => match plan_update_skill(id, u) {
            None => UpdateDecision::Unchanged(e),
            Some((stmt, params)) => UpdateDecision::Execute(stmt, params),
        },
    }
}

/// The decision of the resume update endpoint.
pub fn decide_update_resume(existing: Option<ResumeData>, id: i32, u: UpdateResumeData) -> (r:
    UpdateDecision<ResumeData>)
    ensures
        existing is None ==> r is Missing,
        (existing is Some && present(resume_fields(u)).len() == 0 ==> (r matches UpdateDecision::Unchanged(x) && x == existing->0)),
        (existing is Some && present(resume_fields(u)).len() > 0 ==> (r matches UpdateDecision::Execute(s, p) && s@
            == update_stmt("resume_data"@, present_cols(resume_fields(u))) && p@ == present_vals(
            resume_fields(u),
        ).push(SqlValue::Int(id)))),
{
    match existing {
        None => UpdateDecision::Missing,
        Some(e) => match plan_update_resume(id, u) {
            None => UpdateDecision::Unchanged(e),
            Some((stmt, params)) => UpdateDecision::Execute(stmt, params),
        },
    }
}

/// What the executed project update leaves in the store: present fields take
/// the payload's value, absent fields keep the stored one; the identifier and
/// the storage-managed timestamps are not the statement's to change.
pub fn apply_update_project(e: Project, u: UpdateProject) -> (r: Project)
    ensures
        r.id == e.id,
        r.title == (match u.title {
            Some(v) => v,
            None => e.title,
        }),
        r.description == (match u.description {
            Some(v) => v,
            None => e.description,
        }),
        r.github_url == (match u.github_url {
            Some(v) => Some(v),
            None => e.github_url,
        }),
        r.live_url == (match u.live_url {
            Some(v) => Some(v),
            None => e.live_url,
        }),
        r.tech_stack == (match u.tech_stack {
            Some(v) => v,
            None => e.tech_stack,
        }),
        r.year == (match u.year {
            Some(v) => Some(v),
            None => e.year,
        }),
        r.featured == (match u.featured {
            Some(v) => v,
            None => e.featured,
        }),
        r.github_stars == (match u.github_stars {
            Some(v) => v,
            None => e.github_stars,
        }),
        r.github_forks == (match u.github_forks {
            Some(v) => v,
            None => e.github_forks,
        }),
        r.last_updated == e.last_updated,
        r.created_at == e.created_at,
        r.updated_at == e.updated_at,
{
    Project {
        id: e.id,
        title: match u.title {
            Some(v) => v,
            None => e.title,
        },
        description: match u.description {
            Some(v) => v,
            None => e.description,
        },
        github_url: match u.github_url {
            Some(v) => Some(v),
            None => e.github_url,
        },
        live_url: match u.live_url {
            Some(v) => Some(v),
            None => e.live_url,
        },
        tech_stack: match u.tech_stack {
            Some(v) => v,
            None => e.tech_stack,
        },
        year: match u.year {
            Some(v) => Some(v),
            None => e.year,
        },
        featured: match u.featured {
            Some(v) => v,
            None => e.featured,
        },
        github_stars: match u.github_stars {
            Some(v) => v,
            None => e.github_stars,
        },
        github_forks: match u.github_forks {
            Some(v) => v,
            None => e.github_forks,
        },
        last_updated: e.last_updated,
        created_at: e.created_at,
        updated_at: e.updated_at,
    }
}

/// What the executed skill update leaves in the store.
pub fn apply_update_skill(e: Skill, u: UpdateSkill) -> (r: Skill)
    ensures
        r.id == e.id,
        r.name == (match u.name {
            Some(v) => v,
            None => e.name,
        }),
        r.category == (match u.category {
            Some(v) => v,
            None => e.category,
        }),
        r.proficiency == (match u.proficiency {
            Some(v) => v,
            None => e.proficiency,
        }),
        r.icon == (match u.icon {
            Some(v) => Some(v),
            None => e.icon,
        }),
        r.order_index == (match u.order_index {
            Some(v) => v,
            None => e.order_index,
        }),
        r.created_at == e.created_at,
        r.updated_at == e.updated_at,
{
    Skill {
        id: e.id,
        name: match u.name {
            Some(v) => v,
            None => e.name,
        },
        category: match u.category {
            Some(v) => v,
            None => e.category,
        },
        proficiency: match u.proficiency {
            Some(v) => v,
            None => e.proficiency,
        },
        icon: match u.icon {
            Some(v) => Some(v),
            None => e.icon,
        },
        order_index: match u.order_index {
            Some(v) => v,
            None => e.order_index,
        },
        created_at: e.created_at,
        updated_at: e.updated_at,
    }
}

/// What the executed resume update leaves in the store.
pub fn apply_update_resume(e: ResumeData, u: UpdateResumeData) -> (r: ResumeData)
    ensures
        r.id == e.id,
        r.section == (match u.section {
            Some(v) => v,
            None => e.section,
        }),
        r.content == (match u.content {
            Some(v) => v,
            None => e.content,
        }),
        r.order_index == (match u.order_index {
            Some(v) => v,
            None => e.order_index,
        }),
        r.is_visible == (match u.is_visible {
            Some(v) => v,
            None => e.is_visible,
        }),
        r.created_at == e.created_at,
        r.updated_at == e.updated_at,
{
    ResumeData {
        id: e.id,
        section: match u.section {
            Some(v) => v,
            None => e.section,
        },
        content: match u.content {
            Some(v) => v,
            None => e.content,
        },
        order_index: match u.order_index {
            Some(v) => v,
            None => e.order_index,
        },
        is_visible: match u.is_visible {
            Some(v) => v,
            None => e.is_visible,
        },
        created_at: e.created_at,
        updated_at: e.updated_at,
    }
}

} // verus!
