use sealvault_core::db::deterministic_id;
use sealvault_core::db::deterministic_id::EntityName;
use sealvault_core::db::models::dapp::{Dapp, DappEntity};
use sealvault_core::error::Error;

#[test]
fn dapp_identifier() {
    let url = url::Url::parse("https://www.example.com").unwrap();
    let identifier =
        Dapp::dapp_identifier(url.as_str(), Some("example.com".to_string())).unwrap();
    assert_eq!(identifier, "example.com");
}

#[test]
fn identifier_is_the_origin_where_no_domain_is_known() {
    let identifier = Dapp::dapp_identifier("https://www.example.com/path?q=1#top", None).unwrap();
    assert_eq!(identifier, "https://www.example.com");
    let identifier = Dapp::dapp_identifier("http://localhost:8080/index.html", None).unwrap();
    assert_eq!(identifier, "http://localhost:8080");
    let identifier = Dapp::dapp_identifier("https://example.com:443/", None).unwrap();
    assert_eq!(identifier, "https://example.com");
    let identifier = Dapp::dapp_identifier("HTTPS://EXAMPLE.COM/", None).unwrap();
    assert_eq!(identifier, "https://example.com");
}

#[test]
fn identifier_of_a_url_without_tuple_origin() {
    let identifier = Dapp::dapp_identifier("file:///tmp/foo", None).unwrap();
    assert_eq!(identifier, "null");
}

#[test]
fn string_that_is_no_url_is_a_retriable_error() {
    let r = Dapp::dapp_identifier("not a url", Some("example.com".to_string()));
    assert_eq!(
        r,
        Err(Error::Retriable {
            error: "Invalid URL: 'not a url'".to_string()
        })
    );
    assert!(DappEntity::from_url("", None).unwrap_err().is_retriable());
}

#[test]
fn entity_keeps_the_url_as_given() {
    let entity =
        DappEntity::from_url("https://www.example.com/page", Some("example.com".to_string()))
            .unwrap();
    assert_eq!(entity.identifier, "example.com");
    assert_eq!(entity.url, "https://www.example.com/page");
}

#[test]
fn new_row_of_a_dapp() {
    let row = Dapp::create_if_not_exists(
        "https://www.example.com/page",
        Some("example.com".to_string()),
        "2023-11-14T22:13:20Z".to_string(),
    )
    .unwrap();
    assert_eq!(row.identifier, "example.com");
    assert_eq!(row.url, "https://www.example.com/page");
    assert_eq!(row.created_at, "2023-11-14T22:13:20Z");
    assert_eq!(row.updated_at, None);
    assert_eq!(
        row.deterministic_id,
        deterministic_id::derive(EntityName::Dapp, &vec![b"example.com".to_vec()])
    );
}

#[test]
fn creating_a_dapp_twice_gives_the_same_id() {
    let first = Dapp::create_if_not_exists(
        "https://www.example.com/one",
        Some("example.com".to_string()),
        "2023-11-14T22:13:20Z".to_string(),
    )
    .unwrap();
    let second = Dapp::create_if_not_exists(
        "https://app.example.com/two",
        Some("example.com".to_string()),
        "2024-01-01T00:00:00Z".to_string(),
    )
    .unwrap();
    assert_eq!(first.deterministic_id, second.deterministic_id);
    let other = Dapp::create_if_not_exists(
        "https://www.example.org/",
        Some("example.org".to_string()),
        "2023-11-14T22:13:20Z".to_string(),
    )
    .unwrap();
    assert_ne!(first.deterministic_id, other.deterministic_id);
}

#[test]
fn creating_a_dapp_at_no_url_fails() {
    let r = Dapp::create_if_not_exists("::", None, "2023-11-14T22:13:20Z".to_string());
    assert!(r.unwrap_err().is_retriable());
}

#[test]
fn id_for_profile_only_where_the_database_found_the_dapp() {
    let url = "https://www.example.com";
    let domain = || Some("example.com".to_string());
    let id = deterministic_id::derive(EntityName::Dapp, &vec![b"example.com".to_vec()]);
    assert_eq!(
        Dapp::fetch_id_for_profile(url, domain(), Some(true)),
        Ok(Some(id))
    );
    assert_eq!(Dapp::fetch_id_for_profile(url, domain(), Some(false)), Ok(None));
    assert_eq!(Dapp::fetch_id_for_profile(url, domain(), None), Ok(None));
    assert!(Dapp::fetch_id_for_profile("nothing", domain(), Some(true)).is_err());
}

#[test]
fn origin_of_a_url_inside_a_url() {
    let identifier =
        Dapp::dapp_identifier("blob:https://www.example.com/0b5c-11ee", None).unwrap();
    assert_eq!(identifier, "https://www.example.com");
    let nested = format!("{}https://www.example.com/x", "blob:".repeat(10));
    assert_eq!(
        Dapp::dapp_identifier(&nested, None).unwrap(),
        "https://www.example.com"
    );
}

#[test]
fn url_with_colons_up_to_the_bound_is_read() {
    let url = format!("https://www.example.com/{}", ":".repeat(63));
    assert_eq!(Dapp::dapp_identifier(&url, None).unwrap(), "https://www.example.com");
    let query = format!("https://www.example.com/?{}", "a:".repeat(63));
    assert_eq!(Dapp::dapp_identifier(&query, None).unwrap(), "https://www.example.com");
}

#[test]
fn url_with_too_many_colons_is_a_retriable_error() {
    let expected = Err(Error::Retriable {
        error: "URL holds too many colons".to_string(),
    });
    let url = format!("https://www.example.com/{}", ":".repeat(64));
    assert_eq!(Dapp::dapp_identifier(&url, None), expected);
    let nested = format!("{}https://www.example.com/", "blob:".repeat(200_000));
    assert_eq!(Dapp::dapp_identifier(&nested, Some("example.com".to_string())), expected);
    assert!(DappEntity::from_url(&nested, None).unwrap_err().is_retriable());
    let no_url = ":".repeat(65);
    assert_eq!(Dapp::dapp_identifier(&no_url, None), expected);
}
