use variant_server::home::{home_step, HomeStep};
use variant_server::reply::{bad_request_reply, diagnostic_line, read_reply};
use variant_server::routes::{route_for, Route};
use variant_server::selector::{entry_path, select_variant, Variant};

#[test]
fn no_cookie_defaults_to_base() {
    assert_eq!(select_variant(None), Some(Variant::Base));
}

#[test]
fn base_cookie_selects_base() {
    let v = String::from("base");
    assert_eq!(select_variant(Some(&v)), Some(Variant::Base));
}

#[test]
fn shell_cookie_selects_shell() {
    let v = String::from("shell");
    assert_eq!(select_variant(Some(&v)), Some(Variant::Shell));
}

#[test]
fn unknown_cookie_selects_nothing() {
    let foo = String::from("foo");
    assert_eq!(select_variant(Some(&foo)), None);
    let empty = String::from("");
    assert_eq!(select_variant(Some(&empty)), None);
}

#[test]
fn matching_is_case_sensitive() {
    let upper = String::from("BASE");
    assert_eq!(select_variant(Some(&upper)), None);
    let mixed = String::from("Shell");
    assert_eq!(select_variant(Some(&mixed)), None);
}

#[test]
fn entry_paths_are_fixed() {
    assert_eq!(entry_path(Variant::Base), "dist/base/index.html");
    assert_eq!(entry_path(Variant::Shell), "dist/shell/index.html");
}

#[test]
fn successful_read_is_served_verbatim() {
    let path = String::from("dist/base/index.html");
    let content = String::from("<html>BASE</html>");
    let r = read_reply(&path, Ok(content));
    assert_eq!(r.reply.status, 200);
    assert!(r.reply.html);
    assert_eq!(r.reply.body, "<html>BASE</html>");
    assert!(r.diagnostic.is_none());
}

#[test]
fn failed_read_is_internal_error_with_diagnostic() {
    let path = String::from("dist/shell/index.html");
    let err = String::from("No such file or directory");
    let r = read_reply(&path, Err(err));
    assert_eq!(r.reply.status, 500);
    assert!(!r.reply.html);
    assert_eq!(r.reply.body, "");
    let d = r.diagnostic.expect("a failed read must produce a diagnostic");
    assert_eq!(
        d,
        "Error reading HTML file dist/shell/index.html: No such file or directory"
    );
    assert!(d.contains("dist/shell/index.html"));
}

#[test]
fn diagnostic_line_names_path_and_error() {
    let path = String::from("dist/base/index.html");
    let err = String::from("Permission denied");
    let d = diagnostic_line(&path, &err);
    assert_eq!(
        d,
        "Error reading HTML file dist/base/index.html: Permission denied"
    );
}

#[test]
fn bad_request_reply_is_empty_400() {
    let r = bad_request_reply();
    assert_eq!(r.status, 400);
    assert!(!r.html);
    assert_eq!(r.body, "");
}

#[test]
fn home_step_without_cookie_reads_base() {
    match home_step(None) {
        HomeStep::Read(p) => assert_eq!(p, "dist/base/index.html"),
        HomeStep::Reject(_) => panic!("a request without a cookie must be served"),
    }
}

#[test]
fn home_step_with_shell_cookie_reads_shell() {
    let v = String::from("shell");
    match home_step(Some(&v)) {
        HomeStep::Read(p) => assert_eq!(p, "dist/shell/index.html"),
        HomeStep::Reject(_) => panic!("a shell cookie must be served"),
    }
}

#[test]
fn home_step_with_unknown_cookie_rejects_without_reading() {
    let v = String::from("xyz");
    match home_step(Some(&v)) {
        HomeStep::Read(_) => panic!("an unknown cookie must be rejected"),
        HomeStep::Reject(r) => {
            assert_eq!(r.status, 400);
            assert_eq!(r.body, "");
        }
    }
}

#[test]
fn repeated_requests_get_identical_replies() {
    let cookie = String::from("base");
    let content = String::from("<html>BASE</html>");
    let first = match home_step(Some(&cookie)) {
        HomeStep::Read(p) => read_reply(&p, Ok(content.clone())),
        HomeStep::Reject(_) => panic!("a base cookie must be served"),
    };
    let second = match home_step(Some(&cookie)) {
        HomeStep::Read(p) => read_reply(&p, Ok(content.clone())),
        HomeStep::Reject(_) => panic!("a base cookie must be served"),
    };
    assert_eq!(first.reply.status, second.reply.status);
    assert_eq!(first.reply.html, second.reply.html);
    assert_eq!(first.reply.body, second.reply.body);
    assert_eq!(first.diagnostic, second.diagnostic);
}

#[test]
fn root_path_routes_home() {
    let p = String::from("/");
    assert_eq!(route_for(&p), Route::Home);
}

#[test]
fn asset_paths_bypass_the_selector() {
    let exact = String::from("/dist");
    assert_eq!(route_for(&exact), Route::Assets);
    let nested = String::from("/dist/app.js");
    assert_eq!(route_for(&nested), Route::Assets);
    let deep = String::from("/dist/sub/dir/style.css");
    assert_eq!(route_for(&deep), Route::Assets);
}

#[test]
fn other_paths_are_not_found() {
    let similar = String::from("/distx");
    assert_eq!(route_for(&similar), Route::NotFound);
    let other = String::from("/other");
    assert_eq!(route_for(&other), Route::NotFound);
    let empty = String::from("");
    assert_eq!(route_for(&empty), Route::NotFound);
}

#[test]
fn full_scenario_base_shell_then_bad_cookie() {
    let base_doc = String::from("<html>BASE</html>");
    let first = match home_step(None) {
        HomeStep::Read(p) => {
            assert_eq!(p, "dist/base/index.html");
            read_reply(&p, Ok(base_doc))
        }
        HomeStep::Reject(_) => panic!("a request without a cookie must be served"),
    };
    assert_eq!(first.reply.status, 200);
    assert_eq!(first.reply.body, "<html>BASE</html>");

    let shell_cookie = String::from("shell");
    let shell_doc = String::from("<html>SHELL</html>");
    let second = match home_step(Some(&shell_cookie)) {
        HomeStep::Read(p) => {
            assert_eq!(p, "dist/shell/index.html");
            read_reply(&p, Ok(shell_doc))
        }
        HomeStep::Reject(_) => panic!("a shell cookie must be served"),
    };
    assert_eq!(second.reply.status, 200);
    assert_eq!(second.reply.body, "<html>SHELL</html>");

    let bad_cookie = String::from("xyz");
    match home_step(Some(&bad_cookie)) {
        HomeStep::Read(_) => panic!("an unknown cookie must be rejected"),
        HomeStep::Reject(r) => {
            assert_eq!(r.status, 400);
            assert_eq!(r.body, "");
        }
    }
}
