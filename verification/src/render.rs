//! Resolution of request paths against the template store and the current
//! JSON document.
//!
//! A request path is split into a directory-style prefix, a file stem and an
//! extension.  The prefix is a JSON Pointer into the current document, the
//! stem names a template, and the extension decides whether the request is
//! rendered, explicitly refused, or left to the static file fallback.

use vstd::prelude::*;
use vstd::string::*;

use crate::notify::template_ext;
use crate::templates::{rendered, TemplateStore};
use crate::value::{json_of, json_pointer, pointer_of};

verus! {

/// Index of the last occurrence of `c` in `s`, or `-1` when `c` does not
/// occur.
pub open spec fn last_index_of(s: Seq<char>, c: char) -> int
    decreases s.len(),
{
    if s.len() == 0 {
        -1
    } else if s.last() == c {
        s.len() - 1
    } else {
        last_index_of(s.drop_last(), c)
    }
}

/// The split of `s` at the last occurrence of `c`: everything before it and
/// everything after it, the separator itself dropped.  `None` when `c` does
/// not occur in `s`.
pub open spec fn rsplit_spec(s: Seq<char>, c: char) -> Option<(Seq<char>, Seq<char>)> {
    let i = last_index_of(s, c);
    if i < 0 {
        None
    } else {
        Some((s.take(i), s.skip(i + 1)))
    }
}

/// `last_index_of` finds an occurrence when there is one, the occurrence it
/// finds is the last, and it fails exactly on strings without one.
pub proof fn lemma_last_index_of(s: Seq<char>, c: char)
    ensures
        last_index_of(s, c) >= 0 <==> s.contains(c),
        last_index_of(s, c) >= 0 ==> {
            let i = last_index_of(s, c);
            &&& i < s.len()
            &&& s[i] == c
            &&& forall|j: int| i < j < s.len() ==> s[j] != c
        },
    decreases s.len(),
{
    if s.len() == 0 {
    } else if s.last() == c {
        assert(s[s.len() - 1] == c);
        assert(s.contains(c));
    } else {
        let sub = s.drop_last();
        lemma_last_index_of(sub, c);
        let i = last_index_of(s, c);
        assert(i == last_index_of(sub, c));
        if sub.contains(c) {
            let w = choose|w: int| 0 <= w < sub.len() && sub[w] == c;
            assert(s[w] == c);
            assert(s.contains(c));
        }
        if s.contains(c) {
            let w = choose|w: int| 0 <= w < s.len() && s[w] == c;
            assert(w < s.len() - 1);
            assert(sub[w] == c);
            assert(sub.contains(c));
        }
        if i >= 0 {
            assert(sub[i] == c);
            assert(s[i] == c);
            assert forall|j: int| i < j < s.len() implies s[j] != c by {
                if j < s.len() - 1 {
                    assert(sub[j] != c);
                    assert(s[j] == sub[j]);
                } else {
                    assert(s[j] == s.last());
                }
            }
        }
    }
}

/// Splits `string` at the last occurrence of `pat`, dropping the separator;
/// `None` when `pat` does not occur.
pub fn rsplit2<'a>(string: &'a str, pat: char) -> (r: Option<(&'a str, &'a str)>)
    ensures
        match r {
            Some(p) => rsplit_spec(string@, pat) == Some((p.0@, p.1@)),
            None => rsplit_spec(string@, pat) is None,
        },
{
    let n = string.unicode_len();
    let mut i = n;
    while i > 0
        invariant
            i <= n,
            n == string@.len(),
            forall|j: int| i <= j < n ==> string@[j] != pat,
        decreases i,
    {
        i = i - 1;
        if string.get_char(i) == pat {
            let init = string.substring_char(0, i);
            let last = string.substring_char(i + 1, n);
            proof {
                lemma_last_index_of(string@, pat);
                let li = last_index_of(string@, pat);
                assert(string@[i as int] == pat);
                assert(string@.contains(pat));
                if li > i {
                    assert(string@[li] != pat);
                }
                if li < i {
                    assert(string@[i as int] != pat);
                }
                assert(li == i);
                assert(init@ =~= string@.take(i as int));
                assert(last@ =~= string@.skip(i + 1));
            }
            return Some((init, last));
        }
    }
    proof {
        lemma_last_index_of(string@, pat);
        assert(!string@.contains(pat)) by {
            if string@.contains(pat) {
                let w = choose|w: int| 0 <= w < string@.len() && string@[w] == pat;
            }
        };
    }
    None
}

/// Character-wise string equality, usable where the contracts compare views.
pub fn str_eq(a: &str, b: &str) -> (r: bool)
    ensures
        r == (a@ == b@),
{
    let na = a.unicode_len();
    let nb = b.unicode_len();
    if na != nb {
        return false;
    }
    let mut i: usize = 0;
    while i < na
        invariant
            i <= na,
            na == a@.len(),
            na == b@.len(),
            forall|j: int| 0 <= j < i ==> a@[j] == b@[j],
        decreases na - i,
    {
        if a.get_char(i) != b.get_char(i) {
            return false;
        }
        i = i + 1;
    }
    proof {
        assert(a@ =~= b@);
    }
    true
}

/// The extension under which rendered pages are addressed.
pub open spec fn html_ext() -> Seq<char> {
    seq!['h', 't', 'm', 'l']
}

/// What percent-decoding a request path yields, or `None` when the decoded
/// bytes are not well-formed text.
pub uninterp spec fn decoded(s: Seq<char>) -> Option<Seq<char>>;

/// Relies on `urlencoding::decode`: the result is a function of the input
/// alone, it fails only on an input with a `%` escape, and an input without
/// `%` decodes to itself.
#[verifier::external_body]
fn url_decode(s: &str) -> (r: Option<String>)
    ensures
        r matches Some(d) ==> decoded(s@) == Some(d@),
        r is None ==> decoded(s@) is None,
        r is None ==> s@.contains('%'),
        r matches Some(d) ==> (!s@.contains('%') ==> d@ == s@),
{
    match urlencoding::decode(s) {
        Ok(d) => Some(d.into_owned()),
        Err(_) => None,
    }
}

/// How a request ends: a rendered page, an explicit not-found, or a shrug —
/// the path is not the resolver's concern and falls through to the static
/// file responder.
pub enum Resolved {
    Rendered(String),
    NotFound,
    Static,
}

/// The same three outcomes at the specification level, the page as its text.
pub enum Resolution {
    Rendered(Seq<char>),
    NotFound,
    Static,
}

/// The view of an outcome.
pub open spec fn resolved_view(r: Resolved) -> Resolution {
    match r {
        Resolved::Rendered(s) => Resolution::Rendered(s@),
        Resolved::NotFound => Resolution::NotFound,
        Resolved::Static => Resolution::Static,
    }
}

/// How a raw request path resolves against a template set and the current
/// document.  The decoded path splits at its last `/` into a JSON Pointer
/// and a file name, the file name at its last `.` into a template stem and
/// an extension.  A known stem under the page extension is rendered against
/// what the pointer addresses, and any failure along that way — pointer or
/// render — is the client's not-found, never a server error.  The
/// template-source extension is refused outright, and everything else is
/// left to the static responder.
pub open spec fn resolve_spec(
    templates: Map<Seq<char>, Seq<char>>,
    doc: Seq<char>,
    raw: Seq<char>,
) -> Resolution {
    match decoded(raw) {
        None => Resolution::Static,
        Some(path) => match rsplit_spec(path, '/') {
            None => Resolution::Static,
            Some(pf) => match rsplit_spec(pf.1, '.') {
                None => Resolution::Static,
                Some(se) => if se.1 == html_ext() && templates.contains_key(se.0) {
                    match pointer_of(doc, pf.0) {
                        None => Resolution::NotFound,
                        Some(sub) => match rendered(templates, se.0, sub) {
                            None => Resolution::NotFound,
                            Some(out) => Resolution::Rendered(out),
                        },
                    }
                } else if se.1 == template_ext() {
                    Resolution::NotFound
                } else {
                    Resolution::Static
                },
            },
        },
    }
}

/// Resolves one request: consults the template store and the current
/// document afresh, so a hot reload is reflected on the very next request.
pub fn resolve(store: &TemplateStore, doc: &serde_json::Value, raw_path: &str) -> (r: Resolved)
    ensures
        resolved_view(r) == resolve_spec(store.templates(), json_of(*doc), raw_path@),
{
    let decoded_path = match url_decode(raw_path) {
        Some(p) => p,
        None => {
            return Resolved::Static;
        },
    };
    let split_slash = match rsplit2(decoded_path.as_str(), '/') {
        Some(p) => p,
        None => {
            return Resolved::Static;
        },
    };
    let pointer = split_slash.0;
    let file = split_slash.1;
    let split_dot = match rsplit2(file, '.') {
        Some(p) => p,
        None => {
            return Resolved::Static;
        },
    };
    let stem = split_dot.0;
    let ext = split_dot.1;
    proof {
        reveal_strlit("html");
        reveal_strlit("hbs");
        assert("html"@ =~= html_ext());
        assert("hbs"@ =~= template_ext());
    }
    if str_eq(ext, "html") && store.has_template(stem) {
        let sub = match json_pointer(doc, pointer) {
            Some(s) => s,
            None => {
                return Resolved::NotFound;
            },
        };
        match store.render(stem, sub) {
            Ok(out) => Resolved::Rendered(out),
            Err(_) => Resolved::NotFound,
        }
    } else if str_eq(ext, "hbs") {
        Resolved::NotFound
    } else {
        Resolved::Static
    }
}

/// A request for a template source itself is refused: a path whose extension
/// is the template-source extension resolves to not-found, even when its
/// stem names a valid template.
pub proof fn lemma_template_source_refused(
    templates: Map<Seq<char>, Seq<char>>,
    doc: Seq<char>,
    raw: Seq<char>,
    path: Seq<char>,
    prefix: Seq<char>,
    file: Seq<char>,
    stem: Seq<char>,
)
    requires
        decoded(raw) == Some(path),
        rsplit_spec(path, '/') == Some((prefix, file)),
        rsplit_spec(file, '.') == Some((stem, template_ext())),
    ensures
        resolve_spec(templates, doc, raw) == Resolution::NotFound,
{
    assert(html_ext().len() == 4);
    assert(template_ext().len() == 3);
}

/// A path whose file part has no extension is never rendered and never an
/// error: it falls through to the static responder.
pub proof fn lemma_no_extension_is_static(
    templates: Map<Seq<char>, Seq<char>>,
    doc: Seq<char>,
    raw: Seq<char>,
    path: Seq<char>,
    prefix: Seq<char>,
    file: Seq<char>,
)
    requires
        decoded(raw) == Some(path),
        rsplit_spec(path, '/') == Some((prefix, file)),
        rsplit_spec(file, '.') is None,
    ensures
        resolve_spec(templates, doc, raw) == Resolution::Static,
{
}

} // verus!
