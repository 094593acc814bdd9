use portfolio::models::Project;
use portfolio::models::ResumeData;
use portfolio::models::Skill;
use portfolio::models::UpdateProject;
use portfolio::models::UpdateResumeData;
use portfolio::models::UpdateSkill;
use portfolio::update::apply_update_project;
use portfolio::update::apply_update_resume;
use portfolio::update::apply_update_skill;
use portfolio::update::decide_update_project;
use portfolio::update::decide_update_skill;
use portfolio::update::plan_update_project;
use portfolio::update::plan_update_resume;
use portfolio::update::plan_update_skill;
use portfolio::update::UpdateDecision;
use portfolio::value::SqlValue;

fn empty_project_update() -> UpdateProject {
    UpdateProject {
        title: None,
        description: None,
        github_url: None,
        live_url: None,
        tech_stack: None,
        year: None,
        featured: None,
        github_stars: None,
        github_forks: None,
    }
}

fn empty_skill_update() -> UpdateSkill {
    UpdateSkill { name: None, category: None, proficiency: None, icon: None, order_index: None }
}

fn sample_project(id: i32) -> Project {
    Project {
        id,
        title: "Old title".to_string(),
        description: "Old description".to_string(),
        github_url: None,
        live_url: None,
        tech_stack: vec!["Rust".to_string()],
        year: Some(2023),
        featured: false,
        github_stars: 1,
        github_forks: 2,
        last_updated: None,
        created_at: 100,
        updated_at: 200,
    }
}

fn sample_skill_seven() -> Skill {
    Skill {
        id: 7,
        name: "Go".to_string(),
        category: "Languages".to_string(),
        proficiency: 3,
        icon: None,
        order_index: 2,
        created_at: 10,
        updated_at: 20,
    }
}

#[test]
fn skill_update_touches_only_proficiency() {
    let payload = UpdateSkill { proficiency: Some(4), ..empty_skill_update() };
    let (stmt, params) = plan_update_skill(7, payload).expect("one field is present");
    assert_eq!(stmt, "UPDATE skills SET proficiency = $1 WHERE id = $2 RETURNING *");
    assert_eq!(params, vec![SqlValue::Int(4), SqlValue::Int(7)]);
}

#[test]
fn skill_update_merges_into_stored_record() {
    let payload = UpdateSkill { proficiency: Some(4), ..empty_skill_update() };
    let merged = apply_update_skill(sample_skill_seven(), payload);
    assert_eq!(merged.id, 7);
    assert_eq!(merged.name, "Go");
    assert_eq!(merged.category, "Languages");
    assert_eq!(merged.proficiency, 4);
    assert_eq!(merged.icon, None);
    assert_eq!(merged.order_index, 2);
}

#[test]
fn project_update_full_payload_numbers_placeholders_in_order() {
    let payload = UpdateProject {
        title: Some("T".to_string()),
        description: Some("D".to_string()),
        github_url: Some("G".to_string()),
        live_url: Some("L".to_string()),
        tech_stack: Some(vec!["Rust".to_string(), "Axum".to_string()]),
        year: Some(2024),
        featured: Some(true),
        github_stars: Some(5),
        github_forks: Some(6),
    };
    let (stmt, params) = plan_update_project(42, payload).expect("all fields are present");
    assert_eq!(
        stmt,
        "UPDATE projects SET title = $1, description = $2, github_url = $3, live_url = $4, \
         tech_stack = $5, year = $6, featured = $7, github_stars = $8, github_forks = $9 \
         WHERE id = $10 RETURNING *"
    );
    assert_eq!(
        params,
        vec![
            SqlValue::Text("T".to_string()),
            SqlValue::Text("D".to_string()),
            SqlValue::Text("G".to_string()),
            SqlValue::Text("L".to_string()),
            SqlValue::TextArray(vec!["Rust".to_string(), "Axum".to_string()]),
            SqlValue::Int(2024),
            SqlValue::Bool(true),
            SqlValue::Int(5),
            SqlValue::Int(6),
            SqlValue::Int(42),
        ]
    );
}

#[test]
fn project_update_sparse_payload_keeps_declared_column_order() {
    let payload = UpdateProject {
        year: Some(2021),
        title: Some("New".to_string()),
        github_forks: Some(9),
        ..empty_project_update()
    };
    let (stmt, params) = plan_update_project(3, payload).expect("three fields are present");
    assert_eq!(
        stmt,
        "UPDATE projects SET title = $1, year = $2, github_forks = $3 WHERE id = $4 RETURNING *"
    );
    assert_eq!(
        params,
        vec![
            SqlValue::Text("New".to_string()),
            SqlValue::Int(2021),
            SqlValue::Int(9),
            SqlValue::Int(3),
        ]
    );
}

#[test]
fn project_update_without_fields_is_no_statement() {
    assert_eq!(plan_update_project(5, empty_project_update()), None);
}

#[test]
fn empty_update_returns_existing_record_unchanged() {
    let existing = sample_project(5);
    let decision = decide_update_project(Some(existing.clone()), 5, empty_project_update());
    assert_eq!(decision, UpdateDecision::Unchanged(existing));
}

#[test]
fn update_on_missing_identifier_is_missing() {
    let decision = decide_update_project(None, 999, empty_project_update());
    assert_eq!(decision, UpdateDecision::Missing);
    let with_fields =
        UpdateProject { title: Some("X".to_string()), ..empty_project_update() };
    let decision = decide_update_project(None, 999, with_fields);
    assert_eq!(decision, UpdateDecision::Missing);
}

#[test]
fn skill_update_executes_when_fields_present() {
    let payload = UpdateSkill { name: Some("Rust".to_string()), order_index: Some(1), ..empty_skill_update() };
    match decide_update_skill(Some(sample_skill_seven()), 7, payload) {
        UpdateDecision::Execute(stmt, params) => {
            assert_eq!(stmt, "UPDATE skills SET name = $1, order_index = $2 WHERE id = $3 RETURNING *");
            assert_eq!(
                params,
                vec![
                    SqlValue::Text("Rust".to_string()),
                    SqlValue::Int(1),
                    SqlValue::Int(7),
                ]
            );
        }
        other => panic!("expected an executed statement, got {:?}", other),
    }
}

#[test]
fn resume_update_uses_declared_column_order() {
    let payload = UpdateResumeData {
        section: None,
        content: Some("{\"degree\":\"BSc\"}".to_string()),
        order_index: Some(2),
        is_visible: Some(false),
    };
    let (stmt, params) = plan_update_resume(11, payload).expect("three fields are present");
    assert_eq!(
        stmt,
        "UPDATE resume_data SET content = $1, order_index = $2, is_visible = $3 WHERE id = $4 RETURNING *"
    );
    assert_eq!(
        params,
        vec![
            SqlValue::Json("{\"degree\":\"BSc\"}".to_string()),
            SqlValue::Int(2),
            SqlValue::Bool(false),
            SqlValue::Int(11),
        ]
    );
}

#[test]
fn project_merge_takes_present_fields_and_keeps_the_rest() {
    let existing = sample_project(5);
    let payload = UpdateProject {
        title: Some("New title".to_string()),
        featured: Some(true),
        ..empty_project_update()
    };
    let merged = apply_update_project(existing.clone(), payload);
    assert_eq!(merged.title, "New title");
    assert!(merged.featured);
    assert_eq!(merged.description, existing.description);
    assert_eq!(merged.year, existing.year);
    assert_eq!(merged.created_at, existing.created_at);

    let untouched = apply_update_project(existing.clone(), empty_project_update());
    assert_eq!(untouched, existing);
}

#[test]
fn resume_merge_takes_present_fields_and_keeps_the_rest() {
    let existing = ResumeData {
        id: 4,
        section: "education".to_string(),
        content: "{}".to_string(),
        order_index: 1,
        is_visible: true,
        created_at: 10,
        updated_at: 20,
    };
    let payload = UpdateResumeData {
        section: None,
        content: None,
        order_index: None,
        is_visible: Some(false),
    };
    let merged = apply_update_resume(existing.clone(), payload);
    assert_eq!(merged.section, existing.section);
    assert_eq!(merged.content, existing.content);
    assert_eq!(merged.order_index, existing.order_index);
    assert!(!merged.is_visible);
}
