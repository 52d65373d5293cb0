use paperless_ngx::client::PaperlessNgxClientBuilder;
use paperless_ngx::errors::PaperlessError;
use paperless_ngx::paginate::UrlRewrite;

#[test]
fn client_no_args() {
    match PaperlessNgxClientBuilder::default().build() {
        Ok(_) => assert!(false),
        Err(e) => assert!(matches!(e, PaperlessError::IncompleteConfig)),
    }
}

#[test]
fn client_only_urls() {
    match PaperlessNgxClientBuilder::default()
        .set_url("https://localhost")
        .build()
    {
        Ok(_) => assert!(false),
        Err(e) => assert!(matches!(e, PaperlessError::IncompleteConfig)),
    }
}

#[test]
fn client_only_auth() {
    match PaperlessNgxClientBuilder::default()
        .set_auth_token("a spike of pearl and silver")
        .build()
    {
        Ok(_) => assert!(false),
        Err(e) => assert!(matches!(e, PaperlessError::IncompleteConfig)),
    }
}

#[test]
fn client_build() {
    PaperlessNgxClientBuilder::default()
        .set_auth_token("melon")
        .set_url("https://localhost")
        .build()
        .unwrap();
}

#[test]
fn client_build_carries_configuration() {
    let client = PaperlessNgxClientBuilder::default()
        .set_url("https://localhost")
        .set_auth_token("melon")
        .set_no_op(true)
        .set_url_rewrite(UrlRewrite::UpgradeScheme)
        .build()
        .unwrap();
    assert_eq!(client.url, "https://localhost");
    assert_eq!(client.auth, "melon");
    assert!(client.noop);
    assert!(matches!(client.rewrite, UrlRewrite::UpgradeScheme));
}

#[test]
fn client_build_defaults() {
    let client = PaperlessNgxClientBuilder::default()
        .set_url("https://localhost")
        .set_auth_token("melon")
        .build()
        .unwrap();
    assert!(!client.noop);
    assert!(matches!(client.rewrite, UrlRewrite::Identity));
}
