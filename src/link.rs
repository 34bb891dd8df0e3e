use vstd::prelude::*;
use vstd::string::*;

verus! {

/// The text that names the artifact's file in a download link.
pub const ARTIFACT_MARKER: &'static str = "server.jar";

/// The values of the attribute `attr` on the elements named `tag` of the HTML document
/// `page`, in the order in which the parser created the elements; elements without the
/// attribute give nothing.
pub uninterp spec fn attr_values_of(page: Seq<char>, tag: Seq<char>, attr: Seq<char>) -> Seq<
    Seq<char>,
>;

/// Relies on select's `Document::from(&str)`, `Document::find` with `predicate::Name`
/// and `Node::attr`: the document is parsed from the page text alone, the matching
/// elements come in the order of the document's node list, and `attr` yields the
/// attribute's value if the element has it.
#[verifier::external_body]
fn attr_values(page: &str, tag: &str, attr: &str) -> (r: Vec<String>)
    ensures
        r@.map_values(|v: String| v@) == attr_values_of(page@, tag@, attr@),
{
    let doc = select::document::Document::from(page);
    doc.find(select::predicate::Name(tag)).filter_map(|n| n.attr(attr)).map(
        |v| v.to_string(),
    ).collect()
}

/// `t` occurs in `s` at position `i`.
pub open spec fn occurs_at(s: Seq<char>, t: Seq<char>, i: int) -> bool {
    0 <= i && i + t.len() <= s.len() && s.subrange(i, i + t.len()) == t
}

/// `t` occurs somewhere in `s`.
pub open spec fn contains_text(s: Seq<char>, t: Seq<char>) -> bool {
    exists|i: int| #[trigger] occurs_at(s, t, i)
}

/// Whether `needle` occurs in `hay`.
pub fn text_contains(hay: &str, needle: &str) -> (r: bool)
    ensures
        r == contains_text(hay@, needle@),
{
    let n = hay.unicode_len();
    let m = needle.unicode_len();
    if m > n {
        assert forall|i: int| !occurs_at(hay@, needle@, i) by {}
        return false;
    }
    let mut i: usize = 0;
    while i <= n - m
        invariant
            m <= n,
            n == hay@.len(),
            m == needle@.len(),
            forall|k: int| 0 <= k < i ==> !occurs_at(hay@, needle@, k),
        decreases n - m + 1 - i,
    {
        let mut j: usize = 0;
        let mut same = true;
        while j < m
            invariant
                i + m <= n,
                n == hay@.len(),
                m == needle@.len(),
                j <= m,
                same == (forall|k: int| 0 <= k < j ==> hay@[i + k] == needle@[k]),
            decreases m - j,
        {
            if hay.get_char(i + j) != needle.get_char(j) {
                same = false;
            }
            j = j + 1;
        }
        if same {
            assert(hay@.subrange(i as int, i + m) =~= needle@);
            assert(occurs_at(hay@, needle@, i as int));
            return true;
        }
        proof {
            if occurs_at(hay@, needle@, i as int) {
                assert forall|k: int| 0 <= k < m implies hay@[i + k] == needle@[k] by {
                    assert(hay@.subrange(i as int, i + m)[k] == hay@[i + k]);
                }
            }
        }
        i = i + 1;
    }
    assert forall|k: int| !occurs_at(hay@, needle@, k) by {
        if 0 <= k < i {
        }
    }
    false
}

/// The index of the first value that holds `needle`, if any.
pub open spec fn first_containing(values: Seq<Seq<char>>, needle: Seq<char>) -> Option<int> {
    if exists|i: int| 0 <= i < values.len() && #[trigger] contains_text(values[i], needle) {
        let i = choose|i: int|
            0 <= i < values.len() && #[trigger] contains_text(values[i], needle) && forall|k: int|
                0 <= k < i ==> !contains_text(#[trigger] values[k], needle);
        Some(i)
    } else {
        None
    }
}

/// The link that names the artifact among the hrefs of a page: the first that holds
/// the artifact's file name.
pub open spec fn artifact_link_of(hrefs: Seq<Seq<char>>) -> Option<Seq<char>> {
    match first_containing(hrefs, ARTIFACT_MARKER@) {
        Some(i) => Some(hrefs[i]),
        None => None,
    }
}

/// Picks the download link of the artifact from the hrefs of the anchors of a page.
pub fn pick_artifact_link(hrefs: &Vec<String>) -> (r: Option<String>)
    ensures
        match r {
            Some(l) => artifact_link_of(hrefs@.map_values(|v: String| v@)) == Some(l@),
            None => artifact_link_of(hrefs@.map_values(|v: String| v@)) is None,
        },
{
    let ghost vals = hrefs@.map_values(|v: String| v@);
    let mut i: usize = 0;
    while i < hrefs.len()
        invariant
            vals == hrefs@.map_values(|v: String| v@),
            i <= hrefs.len(),
            forall|k: int| 0 <= k < i ==> !contains_text(#[trigger] vals[k], ARTIFACT_MARKER@),
        decreases hrefs.len() - i,
    {
        if text_contains(hrefs[i].as_str(), ARTIFACT_MARKER) {
            proof {
                let w = i as int;
                assert(0 <= w < vals.len() && contains_text(vals[w], ARTIFACT_MARKER@));
                let c = choose|c: int|
                    0 <= c < vals.len() && #[trigger] contains_text(vals[c], ARTIFACT_MARKER@)
                        && forall|k: int|
                        0 <= k < c ==> !contains_text(#[trigger] vals[k], ARTIFACT_MARKER@);
                if c < w {
                } else if c > w {
                    assert(!contains_text(vals[w], ARTIFACT_MARKER@));
                }
                assert(c == w);
            }
            return Some(hrefs[i].clone());
        }
        i = i + 1;
    }
    None
}

/// The download link of the artifact on a landing page: the first href of an anchor
/// that holds the artifact's file name.
pub fn artifact_link(page: &str) -> (r: Option<String>)
    ensures
        match r {
            Some(l) => artifact_link_of(attr_values_of(page@, "a"@, "href"@)) == Some(l@),
            None => artifact_link_of(attr_values_of(page@, "a"@, "href"@)) is None,
        },
{
    let hrefs = attr_values(page, "a", "href");
    pick_artifact_link(&hrefs)
}

} // verus!

verus! {

/// Where the landing page of each version is published.
pub const LANDING_PREFIX: &'static str = "https://mcversions.net/download/";

/// The landing page of a version: the version appended verbatim to the prefix.
pub fn landing_page_url(version: &str) -> (r: String)
    ensures
        r@ == LANDING_PREFIX@ + version@,
{
    let mut url = String::from_str(LANDING_PREFIX);
    url.append(version);
    url
}

} // verus!
