//! Markup that only legacy table-layout engines evaluate.

use vstd::prelude::*;
use vstd::string::*;

verus! {

/// `content` inside a conditional comment: standards-compliant engines see
/// a comment, the legacy engines the content.
pub open spec fn conditional_text(content: Seq<char>) -> Seq<char> {
    "<!--[if mso | IE]>"@ + content + "<![endif]-->"@
}

/// Wraps `content` in the conditional comment of the legacy engines.
pub fn conditional_tag(content: &str) -> (r: String)
    ensures
        r@ == conditional_text(content@),
{
    let mut out = String::from_str("<!--[if mso | IE]>");
    out.append(content);
    out.append("<![endif]-->");
    out
}

} // verus!
