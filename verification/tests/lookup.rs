use paperless_ngx::correspondent::{correspondent_for_name, Correspondent};
use paperless_ngx::errors::PaperlessError;

fn corr(id: i32, name: &str) -> Correspondent {
    Correspondent {
        id,
        document_count: 0,
        name: name.to_string(),
        slug: name.to_lowercase(),
        owner: 1,
    }
}

#[test]
fn lookup_matches_ignoring_ascii_case() {
    let all = vec![corr(1, "other"), corr(2, "acme")];
    let found = correspondent_for_name("Acme", &all).unwrap();
    assert_eq!(found.id, 2);
    assert_eq!(found.name, "acme");
}

#[test]
fn lookup_unknown_name_fails() {
    let all = vec![corr(1, "acme")];
    let r = correspondent_for_name("globex", &all);
    assert!(matches!(r, Err(PaperlessError::UnknownCorrespondent)));
}

#[test]
fn lookup_on_empty_listing_fails() {
    let all: Vec<Correspondent> = Vec::new();
    let r = correspondent_for_name("acme", &all);
    assert!(matches!(r, Err(PaperlessError::UnknownCorrespondent)));
}

#[test]
fn lookup_returns_first_match() {
    let all = vec![corr(1, "ACME"), corr(2, "acme")];
    let found = correspondent_for_name("aCmE", &all).unwrap();
    assert_eq!(found.id, 1);
}

#[test]
fn lookup_is_exact_not_substring() {
    let all = vec![corr(1, "acme corp")];
    let r = correspondent_for_name("acme", &all);
    assert!(matches!(r, Err(PaperlessError::UnknownCorrespondent)));
}

#[test]
fn correspondent_display_string() {
    let c = corr(7, "Acme");
    assert_eq!(c.display_string(), "[7] \"Acme\"");
}
