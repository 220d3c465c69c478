use hello_tide::page::{generate_html, RenderError, HTML_TEMPLATE, PAGE_HEAD, PAGE_TAIL};
use hello_tide::reply::{hello_reply, not_found_reply, reply_for, template_reply};

fn expected_page(name: &str) -> String {
    format!(
        "<!DOCTYPE html>\r\n<html lang=\"en\">\r\n<head>\r\n<meta charset=\"UTF-8\">\r\n<title>Hello!</title>\r\n</head>\r\n<body>\r\n<h1>Hello!</h1>\r\n<p>Hi {} from Rust</p>\r\n</body>\r\n</html>",
        name
    )
}

#[test]
fn hello_test() {
    let reply = hello_reply();
    assert_eq!(reply.status, 200);
    assert_eq!(&reply.body, "hello");
    assert!(!reply.html);
}

#[test]
fn html_template_test() {
    let reply = template_reply("my_name".to_string());
    assert_eq!(reply.status, 200);
    assert_eq!(
        &reply.body,
        "<!DOCTYPE html>\r\n\
<html lang=\"en\">\r\n\
    <head>\r\n\
        <meta charset=\"UTF-8\">\r\n\
        <title>Hello!</title>\r\n\
    </head>\r\n\
    <body>\r\n\
        <h1>Hello!</h1>\r\n\
        <p>Hi my_name from Rust</p>\r\n\
    </body>\r\n\
</html>"
    );
}

#[test]
fn not_found_test() {
    let reply = not_found_reply();
    assert_eq!(reply.status, 404);
    assert_eq!(&reply.body, "Not Found");
    assert!(!reply.html);
}

#[test]
fn render_my_name_has_greeting_line() {
    let html = generate_html("my_name".to_string()).unwrap();
    assert!(html.split("\r\n").any(|line| line == "<p>Hi my_name from Rust</p>"));
    assert_eq!(html, expected_page("my_name"));
}

#[test]
fn render_empty_name_keeps_spaces() {
    let html = generate_html(String::new()).unwrap();
    assert!(html.contains("<p>Hi  from Rust</p>"));
    assert_eq!(html, expected_page(""));
}

#[test]
fn render_name_holding_the_tag() {
    let html = generate_html("{name}".to_string()).unwrap();
    assert!(html.contains("<p>Hi {name} from Rust</p>"));
    assert_eq!(html, expected_page("{name}"));
}

#[test]
fn render_does_not_escape_html() {
    let name = "<b>\"Tom\" & 'Jerry'</b>";
    let html = generate_html(name.to_string()).unwrap();
    assert_eq!(html, expected_page(name));
}

#[test]
fn render_non_ascii_name() {
    let name = "名前 ünï";
    assert_eq!(generate_html(name.to_string()).unwrap(), expected_page(name));
}

#[test]
fn render_twice_gives_same_text() {
    let first = generate_html("twice".to_string()).unwrap();
    let second = generate_html("twice".to_string()).unwrap();
    assert_eq!(first, second);
}

#[test]
fn render_interleaved_names_do_not_mix() {
    let a = generate_html("a".to_string()).unwrap();
    let b = generate_html("b".to_string()).unwrap();
    let a_again = generate_html("a".to_string()).unwrap();
    assert_eq!(a, expected_page("a"));
    assert_eq!(b, expected_page("b"));
    assert_eq!(a, a_again);
    assert_ne!(a, b);
}

#[test]
fn template_is_head_tag_tail() {
    assert_eq!(HTML_TEMPLATE, format!("{}{{name}}{}", PAGE_HEAD, PAGE_TAIL));
}

#[test]
fn reply_for_page_is_html() {
    let reply = reply_for(Ok("<p>x</p>".to_string()));
    assert_eq!(reply.status, 200);
    assert_eq!(&reply.body, "<p>x</p>");
    assert!(reply.html);
}

#[test]
fn reply_for_compilation_failure_is_server_error() {
    let reply = reply_for(Err(RenderError::TemplateCompilationFailed));
    assert_eq!(reply.status, 500);
    assert!(reply.body.is_empty());
    assert!(!reply.html);
}

#[test]
fn reply_for_substitution_failure_is_server_error() {
    let reply = reply_for(Err(RenderError::SubstitutionFailed));
    assert_eq!(reply.status, 500);
    assert!(reply.body.is_empty());
    assert!(!reply.html);
}
