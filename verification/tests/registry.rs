use kodbot::ebas::{
    endpoint, membership_confirmed, membership_request, membership_request_in, request_body,
    verify_membership,
};

#[test]
fn the_address_gets_one_more_segment() {
    assert_eq!(
        endpoint("https://ebas.example.org/api").unwrap(),
        "https://ebas.example.org/api/confirm_membership.json"
    );
    assert_eq!(
        endpoint("https://ebas.example.org").unwrap(),
        "https://ebas.example.org/confirm_membership.json"
    );
    assert_eq!(
        endpoint("https://ebas.example.org/api?x=1").unwrap(),
        "https://ebas.example.org/api/confirm_membership.json?x=1"
    );
}

#[test]
fn a_base_that_is_no_base_gives_no_address() {
    assert_eq!(endpoint("not a url"), None);
    assert_eq!(endpoint(""), None);
    assert_eq!(endpoint("mailto:board@example.org"), None);
}

#[test]
fn the_question_is_written_as_json() {
    assert_eq!(
        request_body("F123", "secret", 2024, "ada@example.org"),
        "{\"request\":{\"action\":\"confirm_membership\",\"api_key\":\"secret\",\"association_number\":\"F123\",\"email\":\"ada@example.org\",\"year_id\":2024}}"
    );
}

#[test]
fn the_question_escapes_what_it_must() {
    assert_eq!(
        request_body("a\"b", "k\\", -1, "line\nbreak"),
        "{\"request\":{\"action\":\"confirm_membership\",\"api_key\":\"k\\\\\",\"association_number\":\"a\\\"b\",\"email\":\"line\\nbreak\",\"year_id\":-1}}"
    );
}

#[test]
fn the_question_reads_back_with_the_year_given() {
    let request =
        membership_request_in("https://ebas.example.org/api", "F123", "secret", 1999, "a@b.c")
            .unwrap();
    assert_eq!(request.address, "https://ebas.example.org/api/confirm_membership.json");
    let document: serde_json::Value = serde_json::from_str(&request.body).unwrap();
    let inner = &document["request"];
    assert_eq!(inner["action"].as_str(), Some("confirm_membership"));
    assert_eq!(inner["association_number"].as_str(), Some("F123"));
    assert_eq!(inner["api_key"].as_str(), Some("secret"));
    assert_eq!(inner["email"].as_str(), Some("a@b.c"));
    assert_eq!(inner["year_id"].as_i64(), Some(1999));
    assert!(membership_request_in("::", "F123", "secret", 1999, "a@b.c").is_none());
}

#[test]
fn the_question_of_today_names_a_year() {
    let request =
        membership_request("https://ebas.example.org", "F123", "secret", "a@b.c").unwrap();
    assert_eq!(request.address, "https://ebas.example.org/confirm_membership.json");
    let document: serde_json::Value = serde_json::from_str(&request.body).unwrap();
    let year = document["request"]["year_id"].as_i64().unwrap();
    assert!(year >= 1970);
    assert!(year <= 9999);
    assert_eq!(request.body, request_body("F123", "secret", year as i32, "a@b.c"));
}

#[test]
fn an_answer_that_says_found_confirms() {
    assert!(verify_membership(
        "{\"response\":{\"member_found\":true,\"request_result\":{\"error\":null}}}"
    ));
    assert!(verify_membership("{\"response\":{\"member_found\":true,\"request_result\":{}}}"));
    assert!(verify_membership("{\"response\":{\"member_found\":true}}"));
    assert!(verify_membership(" { \"response\" : { \"member_found\" : true } , \"x\" : [1] } "));
}

#[test]
fn an_answer_that_says_not_found_does_not_confirm() {
    assert!(!verify_membership(
        "{\"response\":{\"member_found\":false,\"request_result\":{\"error\":null}}}"
    ));
}

#[test]
fn an_answer_with_an_error_does_not_confirm() {
    assert!(!verify_membership(
        "{\"response\":{\"member_found\":true,\"request_result\":{\"error\":\"bad key\"}}}"
    ));
    assert!(!verify_membership(
        "{\"response\":{\"member_found\":true,\"request_result\":{\"error\":false}}}"
    ));
    assert!(!verify_membership(
        "{\"response\":{\"member_found\":true,\"request_result\":{\"error\":{}}}}"
    ));
}

#[test]
fn an_answer_that_does_not_say_does_not_confirm() {
    assert!(!verify_membership("{\"response\":{\"request_result\":{\"error\":null}}}"));
    assert!(!verify_membership("{\"response\":{\"member_found\":\"true\"}}"));
    assert!(!verify_membership("{\"response\":{\"member_found\":1}}"));
    assert!(!verify_membership("{\"response\":{\"member_found\":null}}"));
    assert!(!verify_membership("{\"member_found\":true}"));
    assert!(!verify_membership("{\"response\":[true]}"));
    assert!(!verify_membership("{}"));
    assert!(!verify_membership("true"));
    assert!(!verify_membership("null"));
}

#[test]
fn an_answer_that_is_no_json_does_not_confirm() {
    assert!(!verify_membership(""));
    assert!(!verify_membership("<html>502</html>"));
    assert!(!verify_membership("{\"response\":{\"member_found\":true}"));
    assert!(!verify_membership("{\"response\":{\"member_found\":true}} trailing"));
}

#[test]
fn only_found_without_error_confirms() {
    assert!(membership_confirmed(true, Some(true)));
    assert!(!membership_confirmed(true, Some(false)));
    assert!(!membership_confirmed(true, None));
    assert!(!membership_confirmed(false, Some(true)));
    assert!(!membership_confirmed(false, Some(false)));
    assert!(!membership_confirmed(false, None));
}
