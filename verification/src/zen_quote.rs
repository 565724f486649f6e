//! Inspiration quotes as the quote provider delivers them, and their two
//! renderings.

use vstd::prelude::*;
use vstd::string::StringExecFns;

verus! {

/// One quote: the text, its author, and the provider's own HTML rendering.
pub struct ZenQuoteElement {
    pub q: String,
    pub a: String,
    pub h: String,
}

impl ZenQuoteElement {
    /// The quote as an org document: a heading with the author, then the
    /// quote text.
    pub fn to_org(&self) -> (r: String)
        ensures
            r@ == "* "@ + self.a@ + "\n"@ + self.q@,
    {
        let mut s = String::new();
        s.append("* ");
        s.append(self.a.as_str());
        s.append("\n");
        s.append(self.q.as_str());
        proof {
            assert(s@ =~= "* "@ + self.a@ + "\n"@ + self.q@);
        }
        s
    }

    /// The quote as an HTML fragment: author heading, then the quote.
    pub fn to_html(&self) -> (r: String)
        ensures
            r@ == "<h1 class=\"org-h2\">"@ + self.a@ + "</h1><p>"@ + self.q@ + "</p>"@,
    {
        let mut s = String::new();
        s.append("<h1 class=\"org-h2\">");
        s.append(self.a.as_str());
        s.append("</h1><p>");
        s.append(self.q.as_str());
        s.append("</p>");
        proof {
            assert(s@ =~= "<h1 class=\"org-h2\">"@ + self.a@ + "</h1><p>"@ + self.q@ + "</p>"@);
        }
        s
    }
}

} // verus!
