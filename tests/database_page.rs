use hangar_dashboard::api_error::ApiError;
use hangar_dashboard::database::DatabaseCall;
use hangar_dashboard::database_page::{
    database_page_view, link_request, parse_project_id, DatabasePageView,
};
use hangar_dashboard::model::DatabaseDetails;

#[test]
fn project_ids_are_read_as_i32() {
    assert_eq!(parse_project_id("42"), Some(42));
    assert_eq!(parse_project_id("+7"), Some(7));
    assert_eq!(parse_project_id("-15"), Some(-15));
    assert_eq!(parse_project_id("007"), Some(7));
    assert_eq!(parse_project_id("2147483647"), Some(i32::MAX));
    assert_eq!(parse_project_id("-2147483648"), Some(i32::MIN));
}

#[test]
fn bad_project_ids_are_refused() {
    for text in ["", "-", "+", "4 2", " 42", "42a", "2147483648", "-2147483649", "99999999999999999999", "+-1", "--1"] {
        assert_eq!(parse_project_id(text), None, "{text:?}");
    }
}

#[test]
fn link_request_follows_choice() {
    assert_eq!(link_request("12", 3), Some(DatabaseCall::Link { project_id: 12, database_id: 3 }));
    assert_eq!(link_request("", 3), None);
}

#[test]
fn database_page_states() {
    let db = DatabaseDetails {
        id: 1,
        host: "h".to_string(),
        port: 3306,
        database_name: "d".to_string(),
        username: "u".to_string(),
        password: "p".to_string(),
        project_id: None,
    };
    let err = ApiError { error_code: "NOT_FOUND".to_string(), details: None };
    assert_eq!(database_page_view(&Some(db.clone()), &Some(err.clone())), DatabasePageView::Details);
    assert_eq!(database_page_view(&None, &Some(err)), DatabasePageView::Failed);
    assert_eq!(database_page_view(&None, &None), DatabasePageView::Loading);
}
