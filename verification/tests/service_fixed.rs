use portfolio::models::CreateProject;
use portfolio::models::CreateResumeData;
use portfolio::models::CreateSkill;
use portfolio::pages::page_active;
use portfolio::pages::page_template;
use portfolio::pages::page_title;
use portfolio::pages::site_projects;
use portfolio::pages::Page;
use portfolio::service::health_response;
use portfolio::service::sync_response;
use portfolio::statements::contacts_list_stmt;
use portfolio::statements::project_insert_params;
use portfolio::statements::project_insert_stmt;
use portfolio::statements::projects_list_stmt;
use portfolio::statements::resume_insert_params;
use portfolio::statements::resume_section_stmt;
use portfolio::statements::skill_insert_params;
use portfolio::statements::skills_list_stmt;
use portfolio::value::SqlValue;

#[test]
fn health_reply_is_fixed() {
    let r = health_response("0.1.0".to_string());
    assert_eq!(r.status, "ok");
    assert_eq!(r.message, "Angel Medina Portfolio API is running");
    assert_eq!(r.version, "0.1.0");
}

#[test]
fn sync_stub_always_answers_the_placeholder_with_zero_counts() {
    let r = sync_response();
    assert_eq!(r.message, "GitHub sync feature coming soon");
    assert_eq!(r.synced_count, 0);
    assert_eq!(r.updated_count, 0);
    assert_eq!(r.errors, vec!["GitHub sync not yet implemented".to_string()]);
}

#[test]
fn list_statements_carry_the_declared_orderings() {
    assert_eq!(
        projects_list_stmt(),
        "SELECT * FROM projects ORDER BY featured DESC, year DESC, created_at DESC"
    );
    assert_eq!(skills_list_stmt(), "SELECT * FROM skills ORDER BY category, order_index, name");
    assert_eq!(contacts_list_stmt(), "SELECT * FROM contacts ORDER BY created_at DESC");
    assert_eq!(
        resume_section_stmt(),
        "SELECT * FROM resume_data WHERE section = $1 AND is_visible = true ORDER BY order_index"
    );
}

#[test]
fn project_insert_defaults_featured_to_false() {
    let c = CreateProject {
        title: "T".to_string(),
        description: "D".to_string(),
        github_url: None,
        live_url: None,
        tech_stack: vec!["Rust".to_string()],
        year: None,
        featured: None,
    };
    assert_eq!(
        project_insert_stmt(),
        "INSERT INTO projects (title, description, github_url, live_url, tech_stack, year, featured) \
         VALUES ($1, $2, $3, $4, $5, $6, $7) RETURNING *"
    );
    let params = project_insert_params(c);
    assert_eq!(params[6], SqlValue::Bool(false));
    assert_eq!(params[5], SqlValue::OptInt(None));
}

#[test]
fn skill_insert_defaults_order_index_to_zero() {
    let c = CreateSkill {
        name: "Rust".to_string(),
        category: "Languages".to_string(),
        proficiency: 5,
        icon: None,
        order_index: None,
    };
    let params = skill_insert_params(c);
    assert_eq!(
        params,
        vec![
            SqlValue::Text("Rust".to_string()),
            SqlValue::Text("Languages".to_string()),
            SqlValue::Int(5),
            SqlValue::OptText(None),
            SqlValue::Int(0),
        ]
    );
}

#[test]
fn resume_insert_defaults_visibility_to_true() {
    let c = CreateResumeData {
        section: "education".to_string(),
        content: "{}".to_string(),
        order_index: None,
        is_visible: None,
    };
    let params = resume_insert_params(c);
    assert_eq!(params[2], SqlValue::Int(0));
    assert_eq!(params[3], SqlValue::Bool(true));
}

#[test]
fn pages_carry_their_titles_and_templates() {
    assert_eq!(page_title(Page::Home), "Angel Medina - Full Stack Rust Engineer");
    assert_eq!(page_active(Page::Home), "home");
    assert_eq!(page_template(Page::Home), "pages/index.html");
    assert_eq!(page_title(Page::About), "About - Angel Medina");
    assert_eq!(page_active(Page::Projects), "projects");
    assert_eq!(page_template(Page::Contact), "pages/contact.html");
}

#[test]
fn projects_page_shows_the_three_fixed_cards() {
    let cards = site_projects();
    assert_eq!(cards.len(), 3);
    assert_eq!(cards[0].name, "FlightMate v0.3");
    assert_eq!(
        cards[0].github.as_deref(),
        Some("https://github.com/angel-rust/flightmate-v0.3")
    );
    assert_eq!(cards[0].tech.len(), 8);
    assert_eq!(cards[1].name, "Trezza Blockchain");
    assert_eq!(cards[1].tech, vec!["Rust", "Solana", "Web3", "Blockchain"]);
    assert_eq!(cards[2].name, "Angel's Portfolio");
    assert!(cards.iter().all(|c| c.live.is_none()));
}
