//! The replies that the server's routes send: a status, a body, and whether
//! the body is HTML.

use vstd::prelude::*;
use crate::page::{generate_html, page, RenderError};

verus! {

/// The status of a reply that carries what was asked for.
pub const STATUS_OK: u16 = 200;

/// The status of a reply to a path that no route serves.
pub const STATUS_NOT_FOUND: u16 = 404;

/// The status of a reply whose page could not be rendered.
pub const STATUS_SERVER_ERROR: u16 = 500;

/// A reply to one request.
pub struct Reply {
    pub status: u16,
    pub body: String,
    /// The body is an HTML document; otherwise it is plain text.
    pub html: bool,
}

/// The reply at the root: the plain text `hello`.
pub fn hello_reply() -> (r: Reply)
    ensures
        r.status == STATUS_OK,
        r.body@ == "hello"@,
        !r.html,
{
    Reply { status: STATUS_OK, body: "hello".to_owned(), html: false }
}

/// The reply to a path that no route serves: `Not Found`, as plain text.
pub fn not_found_reply() -> (r: Reply)
    ensures
        r.status == STATUS_NOT_FOUND,
        r.body@ == "Not Found"@,
        !r.html,
{
    Reply { status: STATUS_NOT_FOUND, body: "Not Found".to_owned(), html: false }
}

/// The reply that carries a rendered page: the page as HTML when there is
/// one, else a server error with an empty body that tells nothing of the cause.
pub fn reply_for(rendered: Result<String, RenderError>) -> (r: Reply)
    ensures
        rendered is Ok ==> r.status == STATUS_OK && r.body@ == rendered->Ok_0@ && r.html,
        rendered is Err ==> r.status == STATUS_SERVER_ERROR && r.body@.len() == 0 && !r.html,
{
    match rendered {
        Ok(body) => Reply { status: STATUS_OK, body, html: true },
        Err(_) => Reply { status: STATUS_SERVER_ERROR, body: String::new(), html: false },
    }
}

/// The reply on the template route for `name`: the page for `name`, as HTML.
pub fn template_reply(name: String) -> (r: Reply)
    ensures
        r.status == STATUS_OK,
        r.body@ == page(name@),
        r.html,
{
    reply_for(generate_html(name))
}

} // verus!
