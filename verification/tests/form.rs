use wfh_bot::basic_structures::LocalDate;
use wfh_bot::post_to_form::{get_response_body, response_body_on};

#[test]
fn form_body_lists_the_pairs_in_order() {
    let body = response_body_on("V.Pupkin", LocalDate { year: 2017, month: 5, day: 5 });
    assert_eq!(
        body,
        "entry.656124513=V.Pupkin&entry.1765270110_year=2017&entry.1765270110_month=5\
         &entry.1765270110_day=5&entry.1251169846=Work+from+home\
         &entry.1251169846.other_option_response=&pageHistory=0%2C1&fvv=1"
    );
}

#[test]
fn form_body_encodes_the_name() {
    let body = response_body_on("Иван П*", LocalDate { year: 2020, month: 12, day: 31 });
    assert!(body.starts_with("entry.656124513=%D0%98%D0%B2%D0%B0%D0%BD+%D0%9F*&"));
    assert!(body.contains("_month=12&"));
    assert!(body.contains("_day=31&"));
}

#[test]
fn form_body_from_the_clock() {
    let body = get_response_body("J.Doe");
    assert!(body.starts_with("entry.656124513=J.Doe&entry.1765270110_year="));
    assert!(body.ends_with("&pageHistory=0%2C1&fvv=1"));
}

#[test]
fn form_body_reads_back_as_the_pairs() {
    let name = "A&B = C+D%";
    let body = response_body_on(name, LocalDate { year: -44, month: 3, day: 15 });
    let pairs: Vec<(String, String)> = url::form_urlencoded::parse(body.as_bytes())
        .map(|(k, v)| (k.into_owned(), v.into_owned()))
        .collect();
    let expected: Vec<(String, String)> = vec![
        ("entry.656124513", name),
        ("entry.1765270110_year", "-44"),
        ("entry.1765270110_month", "3"),
        ("entry.1765270110_day", "15"),
        ("entry.1251169846", "Work from home"),
        ("entry.1251169846.other_option_response", ""),
        ("pageHistory", "0,1"),
        ("fvv", "1"),
    ]
    .into_iter()
    .map(|(k, v)| (k.to_string(), v.to_string()))
    .collect();
    assert_eq!(pairs, expected);
}
