//! Video embed elements: which tags qualify, and what can be read from one.

use vstd::prelude::*;

use crate::address::{base_text, opt_text, url_resolution, AbsoluteUrl, UrlError};
use crate::provider::{classify_host, ProviderKind, VideoProvider};
use crate::text::text_eq;

verus! {

/// One node of a markup tree: its tag name (`None` for text and other
/// non-element nodes) and its attributes, in the order they were written.
#[derive(Debug, Clone, PartialEq, Eq)]
pub struct NodeInfo {
    pub name: Option<String>,
    pub attrs: Vec<(String, String)>,
}

/// The value of the first attribute named `key` at or after position `i`.
pub open spec fn attr_from(attrs: Seq<(String, String)>, key: Seq<char>, i: int) -> Option<Seq<char>>
    decreases attrs.len() - i,
{
    if i < 0 || i >= attrs.len() {
        None
    } else if attrs[i].0@ == key {
        Some(attrs[i].1@)
    } else {
        attr_from(attrs, key, i + 1)
    }
}

/// The value of the first attribute of `n` named `key`.
pub open spec fn attr_of(n: NodeInfo, key: Seq<char>) -> Option<Seq<char>> {
    attr_from(n.attrs@, key, 0)
}

/// `n` is an element with tag name `tag`.
pub open spec fn has_name(n: NodeInfo, tag: Seq<char>) -> bool {
    n.name matches Some(s) && s@ == tag
}

/// `n` is a `param` element whose `name` attribute is `movie`.
pub open spec fn is_movie_param(n: NodeInfo) -> bool {
    has_name(n, "param"@) && attr_of(n, "name"@) == Some("movie"@)
}

/// The `value` of the first movie parameter at or after position `i`; `None`
/// where there is none, or where that first one has no `value`.
pub open spec fn movie_from(ds: Seq<NodeInfo>, i: int) -> Option<Seq<char>>
    decreases ds.len() - i,
{
    if i < 0 || i >= ds.len() {
        None
    } else if is_movie_param(ds[i]) {
        attr_of(ds[i], "value"@)
    } else {
        movie_from(ds, i + 1)
    }
}

/// A tag name that marks a video embed.
pub open spec fn is_video_tag(name: Seq<char>) -> bool {
    name == "iframe"@ || name == "object"@ || name == "video"@
}

/// An optional provider, as what it stands for.
pub open spec fn opt_provider(p: Option<VideoProvider>) -> Option<ProviderKind> {
    match p {
        Some(v) => Some(v@),
        None => None,
    }
}

/// What a resolution query answered: `None` without a source, `Some(None)`
/// for an error, and the resolved URL otherwise.
pub open spec fn url_outcome(r: Option<Result<AbsoluteUrl, UrlError>>) -> Option<
    Option<(Seq<char>, Option<Seq<char>>)>,
> {
    match r {
        None => None,
        Some(Ok(u)) => Some(Some(u@)),
        Some(Err(_)) => Some(None),
    }
}

/// The first attribute of `n` named `key`.
fn find_attr<'a>(n: &'a NodeInfo, key: &str) -> (r: Option<&'a str>)
    ensures
        opt_text(r) == attr_of(*n, key@),
{
    let k: String = key.to_owned();
    let len = n.attrs.len();
    let mut i: usize = 0;
    while i < len
        invariant
            len == n.attrs@.len(),
            i <= len,
            k@ == key@,
            attr_from(n.attrs@, key@, 0) == attr_from(n.attrs@, key@, i as int),
        decreases len - i,
    {
        if n.attrs[i].0 == k {
            return Some(n.attrs[i].1.as_str());
        }
        i = i + 1;
    }
    None
}

/// Whether `n` is an element with tag name `tag`.
fn name_is(n: &NodeInfo, tag: &str) -> (r: bool)
    ensures
        r == has_name(*n, tag@),
{
    match &n.name {
        Some(s) => text_eq(s.as_str(), tag),
        None => false,
    }
}

/// A video embed element together with its descendants, which the
/// source of an `object` element is read from.
#[derive(Debug, Clone, PartialEq, Eq)]
pub struct VideoNode {
    /// The element itself.
    pub node: NodeInfo,
    /// Every node below it, in document order.
    pub descendants: Vec<NodeInfo>,
}

impl VideoNode {
    /// The declared source: for an `object`, the `value` of its first
    /// descendant `param` named `movie`; for any other tag, its `src`.
    pub open spec fn src_model(self) -> Option<Seq<char>> {
        if has_name(self.node, "object"@) {
            movie_from(self.descendants@, 0)
        } else {
            attr_of(self.node, "src"@)
        }
    }

    /// The resolution of the source against `base`: `None` without a source,
    /// `Some(None)` where it does not resolve.
    pub open spec fn src_url_model(self, base: Option<Seq<char>>) -> Option<
        Option<(Seq<char>, Option<Seq<char>>)>,
    > {
        match self.src_model() {
            Some(s) => Some(url_resolution(base, s)),
            None => None,
        }
    }

    /// The provider of the resolved source's host, where there is one.
    pub open spec fn provider_model(self, base: Option<Seq<char>>) -> Option<ProviderKind> {
        match self.src_url_model(base) {
            Some(Some((_, Some(host)))) => Some(classify_host(host)),
            _ => None,
        }
    }

    /// Whether a tag name marks a video embed: `iframe`, `object` or `video`.
    pub fn node_predicate(name: &str) -> (r: bool)
        ensures
            r == is_video_tag(name@),
    {
        text_eq(name, "iframe") || text_eq(name, "object") || text_eq(name, "video")
    }

    /// Wraps an element and the nodes below it, in document order.
    pub fn new(node: NodeInfo, descendants: Vec<NodeInfo>) -> (r: Self)
        ensures
            r.node == node,
            r.descendants == descendants,
    {
        VideoNode { node, descendants }
    }

    /// The `width` attribute, as written.
    pub fn get_width(&self) -> (r: Option<&str>)
        ensures
            opt_text(r) == attr_of(self.node, "width"@),
    {
        find_attr(&self.node, "width")
    }

    /// The `height` attribute, as written.
    pub fn get_height(&self) -> (r: Option<&str>)
        ensures
            opt_text(r) == attr_of(self.node, "height"@),
    {
        find_attr(&self.node, "height")
    }

    /// The declared source location.
    pub fn get_src(&self) -> (r: Option<&str>)
        ensures
            opt_text(r) == self.src_model(),
    {
        if name_is(&self.node, "object") {
            let len = self.descendants.len();
            let mut i: usize = 0;
            while i < len
                invariant
                    has_name(self.node, "object"@),
                    len == self.descendants@.len(),
                    i <= len,
                    movie_from(self.descendants@, 0) == movie_from(self.descendants@, i as int),
                decreases len - i,
            {
                let d = &self.descendants[i];
                if name_is(d, "param") {
                    let named = find_attr(d, "name");
                    let is_movie = match named {
                        Some(v) => text_eq(v, "movie"),
                        None => false,
                    };
                    if is_movie {
                        return find_attr(d, "value");
                    }
                }
                i = i + 1;
            }
            None
        } else {
            find_attr(&self.node, "src")
        }
    }

    /// The source resolved against `base_url`: `None` without a source, an
    /// error where it does not resolve.
    pub fn get_src_url(&self, base_url: Option<&AbsoluteUrl>) -> (r: Option<
        Result<AbsoluteUrl, UrlError>,
    >)
        ensures
            url_outcome(r) == self.src_url_model(base_text(base_url)),
    {
        match self.get_src() {
            Some(s) => Some(AbsoluteUrl::resolve(base_url, s)),
            None => None,
        }
    }

    /// The provider that serves the source, where it resolves to a URL with
    /// a host; `None` otherwise.
    pub fn get_provider(&self, base_url: Option<&AbsoluteUrl>) -> (r: Option<VideoProvider>)
        ensures
            opt_provider(r) == self.provider_model(base_text(base_url)),
    {
        match self.get_src_url(base_url) {
            Some(Ok(url)) => match url.host_str() {
                Some(host) => match VideoProvider::from_host(host) {
                    Ok(p) => Some(p),
                    Err(p) => Some(p),
                },
                None => None,
            },
            _ => None,
        }
    }
}

/// Asking a node for its width, height or source twice gives the same
/// answer both times.
pub proof fn lemma_attribute_queries_repeat(
    node: VideoNode,
    width1: Option<&str>,
    width2: Option<&str>,
    height1: Option<&str>,
    height2: Option<&str>,
    src1: Option<&str>,
    src2: Option<&str>,
)
    requires
        opt_text(width1) == attr_of(node.node, "width"@),
        opt_text(width2) == attr_of(node.node, "width"@),
        opt_text(height1) == attr_of(node.node, "height"@),
        opt_text(height2) == attr_of(node.node, "height"@),
        opt_text(src1) == node.src_model(),
        opt_text(src2) == node.src_model(),
    ensures
        opt_text(width1) == opt_text(width2),
        opt_text(height1) == opt_text(height2),
        opt_text(src1) == opt_text(src2),
{
}

/// Resolving a node's source, or classifying its provider, twice against the
/// same base gives the same answer both times (up to which parse error the
/// `url` crate reports, which is not modelled).
pub proof fn lemma_resolution_queries_repeat(
    node: VideoNode,
    base: Option<&AbsoluteUrl>,
    url1: Option<Result<AbsoluteUrl, UrlError>>,
    url2: Option<Result<AbsoluteUrl, UrlError>>,
    provider1: Option<VideoProvider>,
    provider2: Option<VideoProvider>,
)
    requires
        url_outcome(url1) == node.src_url_model(base_text(base)),
        url_outcome(url2) == node.src_url_model(base_text(base)),
        opt_provider(provider1) == node.provider_model(base_text(base)),
        opt_provider(provider2) == node.provider_model(base_text(base)),
    ensures
        url_outcome(url1) == url_outcome(url2),
        opt_provider(provider1) == opt_provider(provider2),
{
}

/// A source that fails to resolve gives no provider: the failure is
/// reported by the resolution query only.
pub proof fn lemma_unresolved_source_has_no_provider(node: VideoNode, base: Option<&AbsoluteUrl>)
    requires
        node.src_url_model(base_text(base)) == Some(None::<(Seq<char>, Option<Seq<char>>)>),
    ensures
        node.provider_model(base_text(base)) is None,
{
}

} // verus!
