//! The terminal HTML page the browser always receives: one template, four
//! named slots filled by literal substitution — title, a style block whose
//! color separates success from error, a breadcrumb label, and the body
//! text. The substitution is a single non-recursive pass per slot.

use vstd::prelude::*;
use vstd::string::*;
use crate::text::{replace_in_str, spec_replace};

verus! {

/// The style block injected into the page: neutral for success, red for
/// an error.
pub open spec fn spec_dynamic_style(is_error: bool) -> Seq<char> {
    "<style>:root { --title-color: "@ + (if is_error {
        "#d93025"@
    } else {
        "#202124"@
    }) + "; }</style>"@
}

/// The breadcrumb label of the page.
pub open spec fn spec_breadcrumb(is_error: bool) -> Seq<char> {
    if is_error {
        "Error"@
    } else {
        "Confirmation"@
    }
}

/// The rendered page: the template with its four slots substituted, title
/// first, then style, breadcrumb and body. Inserted values are never
/// rescanned, so a value may not itself hold a slot token.
pub open spec fn spec_render(
    template: Seq<char>,
    title: Seq<char>,
    content: Seq<char>,
    is_error: bool,
) -> Seq<char> {
    spec_replace(
        spec_replace(
            spec_replace(
                spec_replace(template, "${title}"@, title),
                "${dynamicStyle}"@,
                spec_dynamic_style(is_error),
            ),
            "${breadcrumb}"@,
            spec_breadcrumb(is_error),
        ),
        "${bodyContent}"@,
        content,
    )
}

/// Fill the template's slots for one terminal page.
pub fn render_page(template: &str, title: &str, content: &str, is_error: bool) -> (r: String)
    ensures
        r@ == spec_render(template@, title@, content@, is_error),
{
    proof {
        reveal_strlit("${title}");
        reveal_strlit("${dynamicStyle}");
        reveal_strlit("${breadcrumb}");
        reveal_strlit("${bodyContent}");
    }
    let mut style = "<style>:root { --title-color: ".to_owned();
    if is_error {
        style.append("#d93025");
    } else {
        style.append("#202124");
    }
    style.append("; }</style>");
    let breadcrumb = if is_error {
        "Error"
    } else {
        "Confirmation"
    };
    let s1 = replace_in_str(template, "${title}", title);
    let s2 = replace_in_str(s1.as_str(), "${dynamicStyle}", style.as_str());
    let s3 = replace_in_str(s2.as_str(), "${breadcrumb}", breadcrumb);
    replace_in_str(s3.as_str(), "${bodyContent}", content)
}

/// The page answered when the callback carried no code.
pub fn denied_page(template: &str) -> (r: String)
    ensures
        r@ == spec_render(
            template@,
            "Authentication Failed"@,
            "No authorization code found."@,
            true,
        ),
{
    render_page(template, "Authentication Failed", "No authorization code found.", true)
}

/// The page answered when the token exchange or the profile fetch failed.
pub fn failure_page(template: &str) -> (r: String)
    ensures
        r@ == spec_render(
            template@,
            "Auth Failed"@,
            "Google refused the code exchange."@,
            true,
        ),
{
    render_page(template, "Auth Failed", "Google refused the code exchange.", true)
}

/// The page answered after the profile is persisted.
pub fn success_page(template: &str) -> (r: String)
    ensures
        r@ == spec_render(
            template@,
            "Authentication Successful"@,
            "<p>Spatialshot is now connected to your Google Account.</p><p>You can close this tab.</p>"@,
            false,
        ),
{
    render_page(
        template,
        "Authentication Successful",
        "<p>Spatialshot is now connected to your Google Account.</p><p>You can close this tab.</p>",
        false,
    )
}

} // verus!
