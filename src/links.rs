use vstd::prelude::*;

use crate::error::ScrapeError;

verus! {

/// A file to download: its absolute address and the local file name to
/// write it under.
#[derive(Debug, Clone, PartialEq, Eq)]
pub struct FileLink {
    pub url: String,
    pub name: String,
}

/// What a `FileLink` stands for.
pub struct LinkView {
    pub url: Seq<char>,
    pub name: Seq<char>,
}

impl View for FileLink {
    type V = LinkView;

    open spec fn view(&self) -> LinkView {
        LinkView { url: self.url@, name: self.name@ }
    }
}

/// What the document shows of one matched anchor element: its attributes
/// as (name, value) pairs, and its descendant text nodes in document order.
#[derive(Debug, Clone, PartialEq, Eq)]
pub struct Anchor {
    pub attrs: Vec<(String, String)>,
    pub texts: Vec<String>,
}

/// What an `Anchor` stands for.
pub struct AnchorView {
    pub attrs: Seq<(Seq<char>, Seq<char>)>,
    pub texts: Seq<Seq<char>>,
}

impl View for Anchor {
    type V = AnchorView;

    open spec fn view(&self) -> AnchorView {
        AnchorView {
            attrs: self.attrs@.map_values(|p: (String, String)| (p.0@, p.1@)),
            texts: self.texts@.map_values(|t: String| t@),
        }
    }
}

/// The views of a sequence of anchors.
pub open spec fn anchors_view(anchors: Seq<Anchor>) -> Seq<AnchorView> {
    anchors.map_values(|a: Anchor| a@)
}

/// The views of a sequence of links.
pub open spec fn links_view(links: Seq<FileLink>) -> Seq<LinkView> {
    links.map_values(|l: FileLink| l@)
}

pub open spec fn href_key() -> Seq<char> {
    seq!['h', 'r', 'e', 'f']
}

pub open spec fn title_key() -> Seq<char> {
    seq!['t', 'i', 't', 'l', 'e']
}

pub open spec fn https_scheme() -> Seq<char> {
    seq!['h', 't', 't', 'p', 's', ':']
}

/// The value of the first attribute named `key`, if there is one.
pub open spec fn attr_value(attrs: Seq<(Seq<char>, Seq<char>)>, key: Seq<char>) -> Option<Seq<char>>
    decreases attrs.len(),
{
    if attrs.len() == 0 {
        None
    } else if attrs[0].0 == key {
        Some(attrs[0].1)
    } else {
        attr_value(attrs.drop_first(), key)
    }
}

/// The rendered text of an anchor: its text nodes joined in order.
pub open spec fn text_content(a: AnchorView) -> Seq<char> {
    a.texts.flatten()
}

/// The file name an anchor gives: its title if it has one, else its text,
/// unless that text is empty.
pub open spec fn name_of(a: AnchorView) -> Option<Seq<char>> {
    match attr_value(a.attrs, title_key()) {
        Some(t) => Some(t),
        None => if text_content(a).len() > 0 {
            Some(text_content(a))
        } else {
            None
        },
    }
}

/// The link one anchor yields: its scheme-relative target made absolute
/// under https, named by `name_of`; or why it yields none. A missing target
/// is reported before a missing name.
pub open spec fn link_of(a: AnchorView) -> Result<LinkView, ScrapeError> {
    match attr_value(a.attrs, href_key()) {
        None => Err(ScrapeError::MissingAttribute),
        Some(h) => match name_of(a) {
            None => Err(ScrapeError::MissingName),
            Some(n) => Ok(LinkView { url: https_scheme() + h, name: n }),
        },
    }
}

/// The links a sequence of anchors yields, in order; the first anchor
/// that yields none decides the error.
pub open spec fn links_of(anchors: Seq<AnchorView>) -> Result<Seq<LinkView>, ScrapeError>
    decreases anchors.len(),
{
    if anchors.len() == 0 {
        Ok(Seq::empty())
    } else {
        match links_of(anchors.drop_last()) {
            Err(e) => Err(e),
            Ok(prev) => match link_of(anchors.last()) {
                Err(e) => Err(e),
                Ok(l) => Ok(prev.push(l)),
            },
        }
    }
}

/// An optional string, seen as characters.
pub open spec fn opt_view(o: Option<String>) -> Option<Seq<char>> {
    match o {
        Some(s) => Some(s@),
        None => None,
    }
}

/// A single link result, seen through the views.
pub open spec fn link_result_view(r: Result<FileLink, ScrapeError>) -> Result<LinkView, ScrapeError> {
    match r {
        Ok(l) => Ok(l@),
        Err(e) => Err(e),
    }
}

/// A result holding a list of links, seen through the views.
pub open spec fn links_result_view(r: Result<Vec<FileLink>, ScrapeError>) -> Result<
    Seq<LinkView>,
    ScrapeError,
> {
    match r {
        Ok(v) => Ok(links_view(v@)),
        Err(e) => Err(e),
    }
}

proof fn lemma_attr_value_skip(attrs: Seq<(Seq<char>, Seq<char>)>, key: Seq<char>, i: int)
    requires
        0 <= i < attrs.len(),
        attrs[i].0 != key,
    ensures
        attr_value(attrs.subrange(i, attrs.len() as int), key) == attr_value(
            attrs.subrange(i + 1, attrs.len() as int),
            key,
        ),
{
    assert(attrs.subrange(i, attrs.len() as int).drop_first() =~= attrs.subrange(
        i + 1,
        attrs.len() as int,
    ));
}

/// The value of the first attribute in `attrs` named `key`.
pub fn find_attr(attrs: &Vec<(String, String)>, key: &String) -> (r: Option<String>)
    ensures
        opt_view(r) == attr_value(attrs@.map_values(|p: (String, String)| (p.0@, p.1@)), key@),
{
    let ghost all = attrs@.map_values(|p: (String, String)| (p.0@, p.1@));
    let mut i: usize = 0;
    assert(all.subrange(0, all.len() as int) =~= all);
    while i < attrs.len()
        invariant
            i <= attrs.len(),
            all == attrs@.map_values(|p: (String, String)| (p.0@, p.1@)),
            attr_value(all, key@) == attr_value(all.subrange(i as int, all.len() as int), key@),
        decreases attrs.len() - i,
    {
        if attrs[i].0 == *key {
            return Some(attrs[i].1.clone());
        }
        proof {
            lemma_attr_value_skip(all, key@, i as int);
        }
        i = i + 1;
    }
    None
}

/// The text nodes of an anchor joined in order.
pub fn join_texts(texts: &Vec<String>) -> (r: String)
    ensures
        r@ == texts@.map_values(|t: String| t@).flatten(),
{
    let ghost all = texts@.map_values(|t: String| t@);
    let mut out = String::new();
    let mut i: usize = 0;
    assert(all.take(0) =~= Seq::<Seq<char>>::empty());
    while i < texts.len()
        invariant
            i <= texts.len(),
            all == texts@.map_values(|t: String| t@),
            out@ == all.take(i as int).flatten(),
        decreases texts.len() - i,
    {
        out.append(texts[i].as_str());
        proof {
            assert(all.take(i + 1) =~= all.take(i as int).push(all[i as int]));
            all.take(i as int).lemma_flatten_push(all[i as int]);
        }
        i = i + 1;
    }
    assert(all.take(i as int) =~= all);
    out
}

/// The link one anchor yields, or why it yields none.
pub fn link_from_anchor(a: &Anchor) -> (r: Result<FileLink, ScrapeError>)
    ensures
        link_result_view(r) == link_of(a@),
{
    let href_name = String::from_str("href");
    let title_name = String::from_str("title");
    proof {
        reveal_strlit("href");
        reveal_strlit("title");
        assert(href_name@ =~= href_key());
        assert(title_name@ =~= title_key());
    }
    let href = match find_attr(&a.attrs, &href_name) {
        Some(h) => h,
        None => {
            return Err(ScrapeError::MissingAttribute);
        },
    };
    let name = match find_attr(&a.attrs, &title_name) {
        Some(t) => t,
        None => {
            let text = join_texts(&a.texts);
            if text.as_str().is_empty() {
                return Err(ScrapeError::MissingName);
            }
            text
        },
    };
    let scheme = String::from_str("https:");
    proof {
        reveal_strlit("https:");
        assert(scheme@ =~= https_scheme());
    }
    let url = scheme.concat(href.as_str());
    Ok(FileLink { url, name })
}

/// Once a prefix of the anchors fails, the whole sequence fails with the
/// same error.
proof fn lemma_prefix_error(anchors: Seq<AnchorView>, i: int, e: ScrapeError)
    requires
        0 <= i <= anchors.len(),
        links_of(anchors.take(i)) == Err::<Seq<LinkView>, ScrapeError>(e),
    ensures
        links_of(anchors) == Err::<Seq<LinkView>, ScrapeError>(e),
    decreases anchors.len() - i,
{
    if i < anchors.len() {
        assert(anchors.take(i + 1).drop_last() =~= anchors.take(i));
        lemma_prefix_error(anchors, i + 1, e);
    } else {
        assert(anchors.take(i) =~= anchors);
    }
}

/// The links that a sequence of matched anchors yields, in document order;
/// fails on the first anchor without a target (`MissingAttribute`) or
/// without a name (`MissingName`).
pub fn links_from_anchors(anchors: &Vec<Anchor>) -> (r: Result<Vec<FileLink>, ScrapeError>)
    ensures
        links_result_view(r) == links_of(anchors_view(anchors@)),
{
    let ghost all = anchors_view(anchors@);
    let mut out: Vec<FileLink> = Vec::new();
    let mut i: usize = 0;
    assert(all.take(0) =~= Seq::<AnchorView>::empty());
    assert(links_view(out@) =~= Seq::<LinkView>::empty());
    while i < anchors.len()
        invariant
            i <= anchors.len(),
            all == anchors_view(anchors@),
            links_of(all.take(i as int)) == Ok::<Seq<LinkView>, ScrapeError>(links_view(out@)),
        decreases anchors.len() - i,
    {
        let ghost prev = links_view(out@);
        proof {
            assert(all.take(i + 1).drop_last() =~= all.take(i as int));
            assert(all.take(i + 1).last() == anchors@[i as int]@);
        }
        match link_from_anchor(&anchors[i]) {
            Ok(l) => {
                out.push(l);
                proof {
                    assert(links_view(out@) =~= prev.push(l@));
                }
            },
            Err(e) => {
                proof {
                    lemma_prefix_error(all, i + 1, e);
                }
                return Err(e);
            },
        }
        i = i + 1;
    }
    assert(all.take(i as int) =~= all);
    Ok(out)
}

} // verus!
