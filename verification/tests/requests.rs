use paperless_ngx::client::{HttpMethod, PaperlessNgxClient, PaperlessNgxClientBuilder};
use paperless_ngx::correspondent::Correspondent;
use paperless_ngx::page::Page;
use paperless_ngx::text::{i32_to_string, trim_quotes, u32_to_string};

fn client() -> PaperlessNgxClient {
    PaperlessNgxClientBuilder::default()
        .set_url("https://localhost")
        .set_auth_token("melon")
        .build()
        .unwrap()
}

fn dry_run_client() -> PaperlessNgxClient {
    PaperlessNgxClientBuilder::default()
        .set_url("https://localhost")
        .set_auth_token("melon")
        .set_no_op(true)
        .build()
        .unwrap()
}

fn corr(id: i32, name: &str) -> Correspondent {
    Correspondent {
        id,
        document_count: 0,
        name: name.to_string(),
        slug: name.to_string(),
        owner: 1,
    }
}

#[test]
fn get_request_is_authenticated() {
    let req = client().get_request("/api/documents/");
    assert!(matches!(req.method, HttpMethod::Get));
    assert_eq!(req.url, "https://localhost/api/documents/");
    assert_eq!(req.auth_header, "Token melon");
}

#[test]
fn document_listing_paths() {
    let c = client();
    let unfiltered = c.documents_start(None);
    assert_eq!(
        unfiltered.next_request().unwrap(),
        "https://localhost/api/documents/"
    );
    let filtered = c.documents_start(Some(&corr(9, "acme")));
    assert_eq!(
        filtered.next_request().unwrap(),
        "https://localhost/api/documents/?correspondent__id__in=9"
    );
}

#[test]
fn correspondent_listing_paths() {
    let c = client();
    let unfiltered = c.correspondents_start(None);
    assert_eq!(
        unfiltered.next_request().unwrap(),
        "https://localhost/api/correspondents/"
    );
    let filtered = c.correspondents_start(Some("acme".to_string()));
    assert_eq!(
        filtered.next_request().unwrap(),
        "https://localhost/api/correspondents/?name__icontains=acme"
    );
}

#[test]
fn document_get_request_path() {
    let req = client().document_get_request(&42);
    assert!(matches!(req.method, HttpMethod::Get));
    assert_eq!(req.url, "https://localhost/api/documents/42/");
}

#[test]
fn correspondent_get_request_path() {
    let req = client().correspondent_get_request(&7);
    assert_eq!(req.url, "https://localhost/api/correspondents/7/");
}

#[test]
fn upload_plan_is_formed_and_transmitted() {
    let plan = client().upload_plan("/tmp/doc.pdf");
    assert!(matches!(plan.request.method, HttpMethod::PostMultipart));
    assert_eq!(
        plan.request.url,
        "https://localhost/api/documents/post_document/"
    );
    assert_eq!(plan.file_path, "/tmp/doc.pdf");
    assert!(plan.transmit);
}

#[test]
fn upload_plan_under_dry_run_is_formed_but_withheld() {
    let plan = dry_run_client().upload_plan("/tmp/doc.pdf");
    // The request is still fully constructed under dry-run...
    assert_eq!(
        plan.request.url,
        "https://localhost/api/documents/post_document/"
    );
    assert_eq!(plan.request.auth_header, "Token melon");
    // ...but must not be transmitted.
    assert!(!plan.transmit);
}

#[test]
fn bulk_edit_plan_carries_method_and_parameter() {
    let plan = client().documents_bulk_set_correspondent_plan(vec![1, 2, 3], &corr(12, "acme"));
    assert!(matches!(plan.request.method, HttpMethod::PostJson));
    assert_eq!(plan.request.url, "https://localhost/api/documents/bulk_edit/");
    assert_eq!(plan.edit.documents, vec![1, 2, 3]);
    assert_eq!(plan.edit.method, "set_correspondent");
    assert_eq!(plan.edit.parameters.len(), 1);
    assert_eq!(plan.edit.parameters[0].0, "correspondent");
    assert_eq!(plan.edit.parameters[0].1, "12");
    assert!(plan.transmit);
}

#[test]
fn bulk_edit_plan_under_dry_run_is_withheld() {
    let plan = dry_run_client().documents_bulk_set_correspondent_plan(vec![1], &corr(12, "acme"));
    assert_eq!(plan.edit.method, "set_correspondent");
    assert!(!plan.transmit);
}

#[test]
fn delete_plan_under_dry_run_is_withheld() {
    let live = client().correspondent_delete_plan(&5);
    assert!(matches!(live.request.method, HttpMethod::Delete));
    assert_eq!(live.request.url, "https://localhost/api/correspondents/5/");
    assert!(live.transmit);
    let dry = dry_run_client().correspondent_delete_plan(&5);
    assert!(!dry.transmit);
}

#[test]
fn dry_run_never_gates_reads() {
    let req = dry_run_client().get_request("/api/documents/");
    assert!(matches!(req.method, HttpMethod::Get));
}

#[test]
fn decimal_rendering() {
    assert_eq!(u32_to_string(0), "0");
    assert_eq!(u32_to_string(907), "907");
    assert_eq!(u32_to_string(u32::MAX), "4294967295");
    assert_eq!(i32_to_string(0), "0");
    assert_eq!(i32_to_string(42), "42");
    assert_eq!(i32_to_string(-123), "-123");
    assert_eq!(i32_to_string(i32::MIN), "-2147483648");
    assert_eq!(i32_to_string(i32::MAX), "2147483647");
}

#[test]
fn trim_quotes_strips_only_outer_quotes() {
    assert_eq!(trim_quotes("\"abc-123\""), "abc-123");
    assert_eq!(trim_quotes("abc"), "abc");
    assert_eq!(trim_quotes("\"\""), "");
    assert_eq!(trim_quotes(""), "");
    assert_eq!(trim_quotes("\"\"a\"b\"\""), "a\"b");
}

#[test]
fn raw_get_request_keeps_absolute_url() {
    let req = client().raw_get_request("http://other/api/documents/?page=2");
    assert_eq!(req.url, "http://other/api/documents/?page=2");
    assert_eq!(req.auth_header, "Token melon");
}

#[test]
fn document_ids_request_and_page_extraction() {
    let req = client().document_ids_request(Some(&corr(3, "acme")));
    assert_eq!(
        req.url,
        "https://localhost/api/documents/?correspondent__id__in=3"
    );
    let page: Page<paperless_ngx::document::Document> = Page {
        count: 3,
        all: vec![4, 5, 6],
        next: None,
        previous: None,
        results: Vec::new(),
    };
    assert_eq!(PaperlessNgxClient::document_ids_from_page(page), vec![4, 5, 6]);
}

#[test]
fn url_from_path_appends() {
    assert_eq!(
        client().url_from_path("/api/tasks/"),
        "https://localhost/api/tasks/"
    );
}
