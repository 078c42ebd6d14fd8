use questdb::{exec_url, exp_url, imp_url, upload_file_name, Atomicity, Limit};

#[test]
fn exec_url_all_absent() {
    let u = exec_url("http://192.168.1.37:9000", "select * from readings", None, None, None);
    assert_eq!(u, "http://192.168.1.37:9000/exec?query=select * from readings");
}

#[test]
fn exec_url_all_present() {
    let u = exec_url("http://h:9000", "select 1", Some(Limit::Upper(10)), Some(true), Some(false));
    assert_eq!(u, "http://h:9000/exec?query=select 1&limit=10&count=true&nm=false");
}

#[test]
fn exec_url_limit_only() {
    let u = exec_url("http://h:9000", "select 1", Some(Limit::Upper(5)), None, None);
    assert_eq!(u, "http://h:9000/exec?query=select 1&limit=5");
}

#[test]
fn exec_url_count_only() {
    let u = exec_url("http://h:9000", "select 1", None, Some(false), None);
    assert_eq!(u, "http://h:9000/exec?query=select 1&count=false");
}

#[test]
fn exec_url_nm_only() {
    let u = exec_url("http://h:9000", "select 1", None, None, Some(true));
    assert_eq!(u, "http://h:9000/exec?query=select 1&nm=true");
}

#[test]
fn exec_url_limit_and_nm_keep_order() {
    let u = exec_url("http://h:9000", "q", Some(Limit::Upper(20)), None, Some(true));
    assert_eq!(u, "http://h:9000/exec?query=q&limit=20&nm=true");
}

#[test]
fn exec_url_large_limit() {
    let u = exec_url("b", "q", Some(Limit::Upper(1234567890)), None, None);
    assert_eq!(u, "b/exec?query=q&limit=1234567890");
}

#[test]
fn exec_url_zero_limit() {
    let u = exec_url("b", "q", Some(Limit::Upper(0)), None, None);
    assert_eq!(u, "b/exec?query=q&limit=0");
}

#[test]
fn exp_url_without_limit_omits_parameter() {
    let u = exp_url("http://h:9000", "select * from nu_table", None);
    assert_eq!(u, "http://h:9000/exp?query=select * from nu_table");
}

#[test]
fn exp_url_with_limit() {
    let u = exp_url("http://h:9000", "select * from nu_table", Some(Limit::Upper(5)));
    assert_eq!(u, "http://h:9000/exp?query=select * from nu_table&limit=5");
}

#[test]
fn imp_url_bare() {
    let u = imp_url("http://h:9000", None, None, None, None);
    assert_eq!(u, "http://h:9000/imp?fmt=json");
}

#[test]
fn imp_url_atomicity_relaxed_lowercase() {
    let u = imp_url("http://h:9000", None, None, None, Some(Atomicity::Relaxed));
    assert_eq!(u, "http://h:9000/imp?fmt=json&atomicity=relaxed");
}

#[test]
fn imp_url_atomicity_strict_lowercase() {
    let u = imp_url("http://h:9000", None, None, None, Some(Atomicity::Strict));
    assert_eq!(u, "http://h:9000/imp?fmt=json&atomicity=strict");
}

#[test]
fn imp_url_all_present_keeps_order() {
    let u = imp_url(
        "http://h:9000",
        Some("nu_table"),
        Some(false),
        Some(true),
        Some(Atomicity::Strict),
    );
    assert_eq!(
        u,
        "http://h:9000/imp?fmt=json&name=nu_table&overwrite=false&durable=true&atomicity=strict"
    );
}

#[test]
fn imp_url_name_only() {
    let u = imp_url("http://h:9000", Some("t1"), None, None, None);
    assert_eq!(u, "http://h:9000/imp?fmt=json&name=t1");
}

#[test]
fn exec_url_limit_range_form() {
    let u = exec_url("http://h:9000", "q", Some(Limit::Range(10, 20)), None, None);
    assert_eq!(u, "http://h:9000/exec?query=q&limit=10,20");
}

#[test]
fn exp_url_limit_range_form() {
    let u = exp_url("http://h:9000", "q", Some(Limit::Range(0, 20)));
    assert_eq!(u, "http://h:9000/exp?query=q&limit=0,20");
}

#[test]
fn upload_file_name_relative_path() {
    assert_eq!(upload_file_name("./links.csv"), "links.csv");
}

#[test]
fn upload_file_name_bare_name() {
    assert_eq!(upload_file_name("links.csv"), "links.csv");
}

#[test]
fn upload_file_name_absolute_path() {
    assert_eq!(upload_file_name("/tmp/data/readings.csv"), "readings.csv");
}

#[test]
fn upload_file_name_trailing_separator() {
    assert_eq!(upload_file_name("data/dir/"), "dir");
}

#[test]
fn upload_file_name_no_base_name_keeps_path() {
    assert_eq!(upload_file_name("/"), "/");
    assert_eq!(upload_file_name(""), "");
}
