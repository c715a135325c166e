use dataverse_client::client::{
    build_query_url, build_retrieve_url, build_simple_url, build_targeted_url, version,
};
use dataverse_client::guid::Guid;
use dataverse_client::query::Query;
use dataverse_client::select::Select;

struct Contact;

impl Select for Contact {
    fn get_columns() -> &'static [&'static str] {
        &["contactid", "firstname", "lastname"]
    }
}

#[test]
fn version_is_fixed() {
    assert_eq!(version(), "9.2");
}

#[test]
fn simple_url_names_collection() {
    assert_eq!(
        build_simple_url("https://instance.crm.dynamics.com/", "contacts"),
        "https://instance.crm.dynamics.com/api/data/v9.2/contacts"
    );
}

#[test]
fn targeted_url_names_one_record() {
    let id = Guid::new(0x12345678_1234_1234_1234_123456789012);
    assert_eq!(
        build_targeted_url("https://instance.crm.dynamics.com/", "contacts", &id),
        "https://instance.crm.dynamics.com/api/data/v9.2/contacts(12345678-1234-1234-1234-123456789012)"
    );
}

#[test]
fn retrieve_url_appends_declared_columns() {
    let id = Guid::new(0x12345678_1234_1234_1234_123456789012);
    assert_eq!(
        build_retrieve_url(
            "https://instance.crm.dynamics.com/",
            "contacts",
            &id,
            Contact::get_columns()
        ),
        "https://instance.crm.dynamics.com/api/data/v9.2/contacts(12345678-1234-1234-1234-123456789012)?$select=contactid,firstname,lastname"
    );
}

#[test]
fn query_url_joins_select_with_ampersand() {
    let query = Query::new("contacts").limit(3);
    assert_eq!(
        build_query_url(
            "https://instance.crm.dynamics.com/",
            &query,
            Contact::get_columns()
        ),
        "https://instance.crm.dynamics.com/api/data/v9.2/contacts?$top=3&$select=contactid,firstname,lastname"
    );
}

#[test]
fn query_url_for_bare_query_still_uses_ampersand() {
    let query = Query::new("contacts");
    assert_eq!(
        build_query_url(
            "https://instance.crm.dynamics.com/",
            &query,
            Contact::get_columns()
        ),
        "https://instance.crm.dynamics.com/api/data/v9.2/contacts&$select=contactid,firstname,lastname"
    );
}
