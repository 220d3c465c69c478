//! The greeting page: its template, what it renders to, and the replies that
//! carry it.

use vstd::prelude::*;
use crate::engine;
use crate::engine::{add_template, new_engine, one_slot, render, write_verbatim};

verus! {

/// The page template: one `{name}` tag inside a fixed HTML document.
pub const HTML_TEMPLATE: &'static str = "<!DOCTYPE html>\r\n<html lang=\"en\">\r\n<head>\r\n<meta charset=\"UTF-8\">\r\n<title>Hello!</title>\r\n</head>\r\n<body>\r\n<h1>Hello!</h1>\r\n<p>Hi {name} from Rust</p>\r\n</body>\r\n</html>";

/// The name under which the template is filed with the engine.
pub const TEMPLATE_NAME: &'static str = "hello_rust_template";

/// The context field that the template's tag names.
pub const NAME_FIELD: &'static str = "name";

/// The template's text before its tag.
pub const PAGE_HEAD: &'static str = "<!DOCTYPE html>\r\n<html lang=\"en\">\r\n<head>\r\n<meta charset=\"UTF-8\">\r\n<title>Hello!</title>\r\n</head>\r\n<body>\r\n<h1>Hello!</h1>\r\n<p>Hi ";

/// The template's text after its tag.
pub const PAGE_TAIL: &'static str = " from Rust</p>\r\n</body>\r\n</html>";

/// The page for `name`: the template with `name` in place of its tag, as it is.
pub open spec fn page(name: Seq<char>) -> Seq<char> {
    PAGE_HEAD@ + name + PAGE_TAIL@
}

/// Why a page could not be rendered. Both point at a defect in the template
/// itself, never at the name.
#[derive(Debug, Clone, Copy, PartialEq, Eq, Structural)]
pub enum RenderError {
    /// The template does not compile.
    TemplateCompilationFailed,
    /// The compiled template could not be filled.
    SubstitutionFailed,
}

/// The template is the text before the tag, the tag naming the `name` field,
/// and the text after it: so `page(n)` is the template with its tag replaced
/// by `n`.
pub proof fn lemma_template_shape()
    ensures
        one_slot(HTML_TEMPLATE@, PAGE_HEAD@, NAME_FIELD@, PAGE_TAIL@),
{
    reveal_strlit(
        "<!DOCTYPE html>\r\n<html lang=\"en\">\r\n<head>\r\n<meta charset=\"UTF-8\">\r\n<title>Hello!</title>\r\n</head>\r\n<body>\r\n<h1>Hello!</h1>\r\n<p>Hi {name} from Rust</p>\r\n</body>\r\n</html>",
    );
    reveal_strlit(
        "<!DOCTYPE html>\r\n<html lang=\"en\">\r\n<head>\r\n<meta charset=\"UTF-8\">\r\n<title>Hello!</title>\r\n</head>\r\n<body>\r\n<h1>Hello!</h1>\r\n<p>Hi ",
    );
    reveal_strlit(" from Rust</p>\r\n</body>\r\n</html>");
    reveal_strlit("name");
    assert(HTML_TEMPLATE@ =~= PAGE_HEAD@ + seq!['{'] + NAME_FIELD@ + seq!['}'] + PAGE_TAIL@);
}

/// Renders the page for `name`, which is put in as it is, with no escaping.
pub fn generate_html(name: String) -> (r: Result<String, RenderError>)
    ensures
        r is Ok,
        r->Ok_0@ == page(name@),
{
    let mut engine = new_engine();
    write_verbatim(&mut engine);
    proof {
        lemma_template_shape();
    }
    match add_template(&mut engine, TEMPLATE_NAME, HTML_TEMPLATE) {
        Ok(()) => {},
        Err(_) => {
            return Err(RenderError::TemplateCompilationFailed);
        },
    }
    assert(engine::registered(engine)[TEMPLATE_NAME@] == HTML_TEMPLATE@);
    assert(one_slot(engine::registered(engine)[TEMPLATE_NAME@], PAGE_HEAD@, NAME_FIELD@, PAGE_TAIL@));
    match render(&engine, TEMPLATE_NAME, NAME_FIELD, name.as_str()) {
        Ok(html) => Ok(html),
        Err(_) => Err(RenderError::SubstitutionFailed),
    }
}

/// The greeting line of the page for `name`.
pub open spec fn greeting(name: Seq<char>) -> Seq<char> {
    "<p>Hi "@ + name + " from Rust</p>"@
}

/// Whatever the name, the empty one and one that holds `{name}` itself
/// included, the page has the greeting line with the name as it is, between
/// the same lines above and below it.
pub proof fn lemma_greeting_line(name: Seq<char>)
    ensures
        page(name) == "<!DOCTYPE html>\r\n<html lang=\"en\">\r\n<head>\r\n<meta charset=\"UTF-8\">\r\n<title>Hello!</title>\r\n</head>\r\n<body>\r\n<h1>Hello!</h1>\r\n"@
            + greeting(name) + "\r\n</body>\r\n</html>"@,
{
    reveal_strlit(
        "<!DOCTYPE html>\r\n<html lang=\"en\">\r\n<head>\r\n<meta charset=\"UTF-8\">\r\n<title>Hello!</title>\r\n</head>\r\n<body>\r\n<h1>Hello!</h1>\r\n<p>Hi ",
    );
    reveal_strlit(
        "<!DOCTYPE html>\r\n<html lang=\"en\">\r\n<head>\r\n<meta charset=\"UTF-8\">\r\n<title>Hello!</title>\r\n</head>\r\n<body>\r\n<h1>Hello!</h1>\r\n",
    );
    reveal_strlit("<p>Hi ");
    reveal_strlit(" from Rust</p>\r\n</body>\r\n</html>");
    reveal_strlit(" from Rust</p>");
    reveal_strlit("\r\n</body>\r\n</html>");
    assert(page(name) =~= "<!DOCTYPE html>\r\n<html lang=\"en\">\r\n<head>\r\n<meta charset=\"UTF-8\">\r\n<title>Hello!</title>\r\n</head>\r\n<body>\r\n<h1>Hello!</h1>\r\n"@
        + greeting(name) + "\r\n</body>\r\n</html>"@);
}

/// The page depends on the name alone, and two names give the same page
/// only when they are equal: rendering twice gives the same text, and no
/// rendering carries another's name.
pub proof fn lemma_page_determined(a: Seq<char>, b: Seq<char>)
    ensures
        page(a) == page(b) <==> a == b,
{
    if page(a) == page(b) {
        let h = PAGE_HEAD@.len() as int;
        assert(page(a).len() == PAGE_HEAD@.len() + a.len() + PAGE_TAIL@.len());
        assert(page(b).len() == PAGE_HEAD@.len() + b.len() + PAGE_TAIL@.len());
        assert(a =~= page(a).subrange(h, h + a.len()));
        assert(b =~= page(b).subrange(h, h + b.len()));
    }
}

} // verus!
