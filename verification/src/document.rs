//! The documents that `dsync` moves around: a Markdown file with its
//! frontmatter, a Google Doc, a Linear Doc.

use vstd::prelude::*;

verus! {

/// `serde_yaml::Value`, the value of a frontmatter key that `dsync` does not
/// know; it is carried through unchanged.
#[verifier::external_type_specification]
#[verifier::external_body]
pub struct ExYamlValue(serde_yaml::Value);

/// The frontmatter keys that `dsync` reads and writes, and the other keys as found.
#[derive(Debug, PartialEq)]
pub struct Frontmatter {
    /// `gdocUrl`
    pub gdoc_url: Option<String>,
    /// `linearDocUrl`
    pub linear_doc_url: Option<String>,
    /// `linearDocId`
    pub linear_doc_id: Option<String>,
    /// `gitUrl`
    pub git_url: Option<String>,
    /// Every other key, in key order, with its YAML value.
    pub extra: Vec<(String, serde_yaml::Value)>,
}

/// What a frontmatter holds, as text.
pub struct FrontmatterView {
    pub gdoc_url: Option<Seq<char>>,
    pub linear_doc_url: Option<Seq<char>>,
    pub linear_doc_id: Option<Seq<char>>,
    pub git_url: Option<Seq<char>>,
    pub extra: Seq<(String, serde_yaml::Value)>,
}

impl View for Frontmatter {
    type V = FrontmatterView;

    open spec fn view(&self) -> FrontmatterView {
        FrontmatterView {
            gdoc_url: self.gdoc_url.deep_view(),
            linear_doc_url: self.linear_doc_url.deep_view(),
            linear_doc_id: self.linear_doc_id.deep_view(),
            git_url: self.git_url.deep_view(),
            extra: self.extra@,
        }
    }
}

/// The empty frontmatter.
pub open spec fn empty_frontmatter() -> FrontmatterView {
    FrontmatterView {
        gdoc_url: None,
        linear_doc_url: None,
        linear_doc_id: None,
        git_url: None,
        extra: Seq::empty(),
    }
}

/// `a` comes before `b` in the order of their characters' code points, the
/// order in which a `BTreeMap<String, _>` keeps its keys.
pub open spec fn key_before(a: Seq<char>, b: Seq<char>) -> bool
    decreases a.len(),
{
    if a.len() == 0 {
        b.len() > 0
    } else if b.len() == 0 {
        false
    } else if a[0] != b[0] {
        (a[0] as int) < (b[0] as int)
    } else {
        key_before(a.drop_first(), b.drop_first())
    }
}

/// The keys that `dsync` reads and writes itself.
pub open spec fn is_known_key(k: Seq<char>) -> bool {
    ||| k == "gdocUrl"@
    ||| k == "linearDocUrl"@
    ||| k == "linearDocId"@
    ||| k == "gitUrl"@
}

/// A frontmatter as its YAML map gives it: the other keys in key order, each
/// once, and none of them one of the four known keys.
pub open spec fn frontmatter_wf(fm: FrontmatterView) -> bool {
    &&& forall|i: int, j: int|
        0 <= i < j < fm.extra.len() ==> key_before(
            #[trigger] fm.extra[i].0@,
            #[trigger] fm.extra[j].0@,
        )
    &&& forall|i: int| 0 <= i < fm.extra.len() ==> !is_known_key(#[trigger] fm.extra[i].0@)
}

/// A Markdown document: where it lives, its frontmatter, its body.
pub struct MdDoc {
    pub path: String,
    pub frontmatter: Frontmatter,
    pub content: String,
}

/// A Linear document as the Linear API reports it.
pub struct LinearDoc {
    pub id: String,
    pub url: String,
    pub title: String,
    pub content: String,
}

/// A Google Doc: its edit URL, title and plain text.
pub struct GDoc {
    pub url: String,
    pub title: String,
    pub text: String,
}

/// Copy of a `serde_yaml::Value` (its derived `Clone`); the contract claims
/// the copy is the same value.
#[verifier::external_body]
fn copy_yaml_value(v: &serde_yaml::Value) -> (r: serde_yaml::Value)
    ensures
        r == *v,
{
    v.clone()
}

/// Copy of an optional string.
pub fn copy_opt(o: &Option<String>) -> (r: Option<String>)
    ensures
        r == *o,
{
    match o {
        Some(s) => Some(s.clone()),
        None => None,
    }
}

impl Frontmatter {
    /// The frontmatter with no key at all.
    pub fn empty() -> (r: Frontmatter)
        ensures
            r@ == empty_frontmatter(),
            frontmatter_wf(r@),
    {
        let r = Frontmatter {
            gdoc_url: None,
            linear_doc_url: None,
            linear_doc_id: None,
            git_url: None,
            extra: Vec::new(),
        };
        assert(r@.extra =~= Seq::<(String, serde_yaml::Value)>::empty());
        r
    }

    /// A copy of this frontmatter.
    pub fn duplicate(&self) -> (r: Frontmatter)
        ensures
            r@ == self@,
    {
        let mut extra: Vec<(String, serde_yaml::Value)> = Vec::new();
        let mut i: usize = 0;
        while i < self.extra.len()
            invariant
                i <= self.extra.len(),
                extra@ == self.extra@.take(i as int),
            decreases self.extra.len() - i,
        {
            let key = self.extra[i].0.clone();
            let value = copy_yaml_value(&self.extra[i].1);
            extra.push((key, value));
            i = i + 1;
            assert(extra@ =~= self.extra@.take(i as int));
        }
        assert(self.extra@.take(i as int) =~= self.extra@);
        Frontmatter {
            gdoc_url: copy_opt(&self.gdoc_url),
            linear_doc_url: copy_opt(&self.linear_doc_url),
            linear_doc_id: copy_opt(&self.linear_doc_id),
            git_url: copy_opt(&self.git_url),
            extra,
        }
    }
}

impl Default for Frontmatter {
    fn default() -> (r: Frontmatter)
        ensures
            r@ == empty_frontmatter(),
            frontmatter_wf(r@),
    {
        Frontmatter::empty()
    }
}

} // verus!
