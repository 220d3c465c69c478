//! What the library relies on from `tinytemplate`.

use vstd::prelude::*;

verus! {

#[verifier::external_type_specification]
#[verifier::external_body]
pub struct ExTinyTemplate<'template>(tinytemplate::TinyTemplate<'template>);

#[verifier::external_type_specification]
#[verifier::external_body]
pub struct ExTemplateError(tinytemplate::error::Error);

/// The templates held by an engine: template name to template text.
pub uninterp spec fn registered(t: tinytemplate::TinyTemplate<'static>) -> Map<Seq<char>, Seq<char>>;

/// Whether an engine writes string values as they are, with no HTML escaping.
pub uninterp spec fn verbatim(t: tinytemplate::TinyTemplate<'static>) -> bool;

/// Text that the template compiler copies through unchanged: it opens no tag
/// and escapes nothing.
pub open spec fn plain_text(s: Seq<char>) -> bool {
    forall|i: int| 0 <= i < s.len() ==> s[i] != '{' && s[i] != '\\'
}

/// A context field name that the compiler reads as a one-step path.
pub open spec fn field_name(k: Seq<char>) -> bool {
    &&& k.len() > 0
    &&& forall|i: int|
        0 <= i < k.len() ==> ('a' <= k[i] <= 'z' || 'A' <= k[i] <= 'Z' || k[i] == '_')
}

/// `text` is plain text around exactly one value tag naming field `key`.
pub open spec fn one_slot(text: Seq<char>, pre: Seq<char>, key: Seq<char>, post: Seq<char>) -> bool {
    &&& text == pre + seq!['{'] + key + seq!['}'] + post
    &&& plain_text(pre)
    &&& plain_text(post)
    &&& field_name(key)
}

/// Relies on `TinyTemplate::new`: a new registry holds no templates.
#[verifier::external_body]
pub(crate) fn new_engine() -> (r: tinytemplate::TinyTemplate<'static>)
    ensures
        registered(r).dom() == Set::<Seq<char>>::empty(),
{
    tinytemplate::TinyTemplate::new()
}

/// Relies on `TinyTemplate::set_default_formatter` with `format_unescaped`:
/// values are then written as they are; the templates stay.
#[verifier::external_body]
pub(crate) fn write_verbatim(t: &mut tinytemplate::TinyTemplate<'static>)
    ensures
        registered(*final(t)) == registered(*old(t)),
        verbatim(*final(t)),
{
    t.set_default_formatter(&tinytemplate::format_unescaped);
}

/// Relies on `TinyTemplate::add_template`: it compiles `text` and files it
/// under `name`, replacing any earlier one. Plain text around one value tag
/// compiles; the compiler panics on some other texts, so only that shape is
/// taken.
#[verifier::external_body]
pub(crate) fn add_template(
    t: &mut tinytemplate::TinyTemplate<'static>,
    name: &'static str,
    text: &'static str,
) -> (r: Result<(), tinytemplate::error::Error>)
    requires
        exists|pre: Seq<char>, key: Seq<char>, post: Seq<char>|
            #[trigger] one_slot(text@, pre, key, post),
    ensures
        r is Ok,
        verbatim(*final(t)) == verbatim(*old(t)),
        registered(*final(t)) == registered(*old(t)).insert(name@, text@),
{
    t.add_template(name, text)
}

/// Relies on `TinyTemplate::render`, with a context of one field `key`
/// holding the string `value`: an unknown template name fails; a verbatim
/// engine fills a one-tag template naming `key` with `value` as it is.
#[verifier::external_body]
pub(crate) fn render(
    t: &tinytemplate::TinyTemplate<'static>,
    name: &str,
    key: &str,
    value: &str,
) -> (r: Result<String, tinytemplate::error::Error>)
    ensures
        !registered(*t).contains_key(name@) ==> r is Err,
        forall|pre: Seq<char>, post: Seq<char>|
            registered(*t).contains_key(name@) && verbatim(*t) && #[trigger] one_slot(
                registered(*t)[name@],
                pre,
                key@,
                post,
            ) ==> r is Ok && r->Ok_0@ == pre + value@ + post,
{
    t.render(name, &std::collections::BTreeMap::from([(key, value)]))
}

} // verus!
