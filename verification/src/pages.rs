//! The site's page data: for each page the title, the navigation key and the
//! template path handed to the renderer, and the fixed project cards of the
//! projects page.

use vstd::prelude::*;

verus! {

/// The four pages the site serves.
#[derive(Debug, Clone, Copy, PartialEq, Eq, Structural)]
pub enum Page {
    Home,
    About,
    Projects,
    Contact,
}

/// The title shown for a page.
pub fn page_title(p: Page) -> (r: &'static str)
    ensures
        p is Home ==> r@ == "Angel Medina - Full Stack Rust Engineer"@,
        p is About ==> r@ == "About - Angel Medina"@,
        p is Projects ==> r@ == "Projects - Angel Medina"@,
        p is Contact ==> r@ == "Contact - Angel Medina"@,
{
    match p {
        Page::Home => "Angel Medina - Full Stack Rust Engineer",
        Page::About => "About - Angel Medina",
        Page::Projects => "Projects - Angel Medina",
        Page::Contact => "Contact - Angel Medina",
    }
}

/// The navigation key of a page.
pub fn page_active(p: Page) -> (r: &'static str)
    ensures
        p is Home ==> r@ == "home"@,
        p is About ==> r@ == "about"@,
        p is Projects ==> r@ == "projects"@,
        p is Contact ==> r@ == "contact"@,
{
    match p {
        Page::Home => "home",
        Page::About => "about",
        Page::Projects => "projects",
        Page::Contact => "contact",
    }
}

/// The template path of a page.
pub fn page_template(p: Page) -> (r: &'static str)
    ensures
        p is Home ==> r@ == "pages/index.html"@,
        p is About ==> r@ == "pages/about.html"@,
        p is Projects ==> r@ == "pages/projects.html"@,
        p is Contact ==> r@ == "pages/contact.html"@,
{
    match p {
        Page::Home => "pages/index.html",
        Page::About => "pages/about.html",
        Page::Projects => "pages/projects.html",
        Page::Contact => "pages/contact.html",
    }
}

/// One project card of the projects page.
#[derive(Debug, Clone, PartialEq)]
pub struct SiteProject {
    pub name: String,
    pub description: String,
    pub tech: Vec<String>,
    pub github: Option<String>,
    pub live: Option<String>,
}

fn tech_list(names: Vec<&str>) -> (r: Vec<String>)
    ensures
        r@.len() == names@.len(),
        forall|i: int| 0 <= i < r@.len() ==> r@[i]@ == names@[i]@,
{
    let mut r: Vec<String> = Vec::new();
    let mut i: usize = 0;
    let n: usize = names.len();
    while i < n
        invariant
            n == names@.len(),
            0 <= i <= n,
            r@.len() == i,
            forall|j: int| 0 <= j < i ==> r@[j]@ == names@[j]@,
        decreases n - i,
    {
        r.push(String::from_str(names[i]));
        i += 1;
    }
    r
}

/// The three fixed project cards shown on the projects page, in order: the
/// names, repository links and technology lists are pinned; none carries a
/// live link.
pub fn site_projects() -> (r: Vec<SiteProject>)
    ensures
        r@.len() == 3,
        r@[0].name@ == "FlightMate v0.3"@,
        r@[0].description@
            == "Production ready flight deal platform serving 380 US cities with 373 airports. Features regional email clustering (10 US regions), passwordless magic link authentication, comprehensive admin dashboard with audit trails, Stripe subscription management ($4.99/mo or $49/yr), and smart email delivery with click tracking. Built with Rust + Axum + PostgreSQL (24 normalized tables) + Redis + Resend API. Currently in active development."@,
        r@[0].github matches Some(u) && u@ == "https://github.com/angel-rust/flightmate-v0.3"@,
        r@[0].tech@.len() == 8,
        r@[1].name@ == "Trezza Blockchain"@,
        r@[1].description@
            == "Decentralized Layer 1 blockchain payment ecosystem on Solana Network, designed to eliminate transaction fees. Rust-native POS terminal for seamless merchant integration and fast, secure payments."@,
        r@[1].github matches Some(u) && u@ == "https://github.com/angel-rust/trezza-Blockchain"@,
        r@[1].tech@.len() == 4,
        r@[2].name@ == "Angel's Portfolio"@,
        r@[2].description@
            == "This portfolio website! Built with Rust, Axum, Tera templates, Three.js for 3D graphics, and HTMX for dynamic interactions. Features elegant black/gold/white theme and custom 3D background animations."@,
        r@[2].github matches Some(u) && u@ == "https://github.com/angel-rust/hello-im-angel"@,
        r@[2].tech@.len() == 6,
        forall|i: int| 0 <= i < 3 ==> r@[i].live is None,
{
    let first = SiteProject {
        name: String::from_str("FlightMate v0.3"),
        description: String::from_str(
            "Production ready flight deal platform serving 380 US cities with 373 airports. Features regional email clustering (10 US regions), passwordless magic link authentication, comprehensive admin dashboard with audit trails, Stripe subscription management ($4.99/mo or $49/yr), and smart email delivery with click tracking. Built with Rust + Axum + PostgreSQL (24 normalized tables) + Redis + Resend API. Currently in active development.",
        ),
        tech: tech_list(
            vec!["Rust", "Axum", "SQLX", "PostgreSQL", "Redis", "Stripe", "Tera", "HTMX"],
        ),
        github: Some(String::from_str("https://github.com/angel-rust/flightmate-v0.3")),
        live: None,
    };
    let second = SiteProject {
        name: String::from_str("Trezza Blockchain"),
        description: String::from_str(
            "Decentralized Layer 1 blockchain payment ecosystem on Solana Network, designed to eliminate transaction fees. Rust-native POS terminal for seamless merchant integration and fast, secure payments.",
        ),
        tech: tech_list(vec!["Rust", "Solana", "Web3", "Blockchain"]),
        github: Some(String::from_str("https://github.com/angel-rust/trezza-Blockchain")),
        live: None,
    };
    let third = SiteProject {
        name: String::from_str("Angel's Portfolio"),
        description: String::from_str(
            "This portfolio website! Built with Rust, Axum, Tera templates, Three.js for 3D graphics, and HTMX for dynamic interactions. Features elegant black/gold/white theme and custom 3D background animations.",
        ),
        tech: tech_list(vec!["Rust", "Axum", "Tera", "HTMX", "Three.js", "Tailwind"]),
        github: Some(String::from_str("https://github.com/angel-rust/hello-im-angel")),
        live: None,
    };
    let r: Vec<SiteProject> = vec![first, second, third];
    proof {
        assert(r@.len() == 3);
    }
    r
}

} // verus!
