//! Classification of a host into a known video provider.

use vstd::prelude::*;

use crate::text::{contains_text, has_substring};

verus! {

/// A video hosting provider, or the host itself when it is none of the known ones.
#[derive(Debug, Clone, PartialEq, Eq)]
pub enum VideoProvider {
    Youtube,
    Vimeo,
    Dailymotion,
    Other(String),
}

/// What a `VideoProvider` stands for, with the host of `Other` as characters.
pub enum ProviderKind {
    Youtube,
    Vimeo,
    Dailymotion,
    Other(Seq<char>),
}

impl View for VideoProvider {
    type V = ProviderKind;

    open spec fn view(&self) -> ProviderKind {
        match self {
            VideoProvider::Youtube => ProviderKind::Youtube,
            VideoProvider::Vimeo => ProviderKind::Vimeo,
            VideoProvider::Dailymotion => ProviderKind::Dailymotion,
            VideoProvider::Other(h) => ProviderKind::Other(h@),
        }
    }
}

pub open spec fn is_youtube_host(host: Seq<char>) -> bool {
    has_substring(host, "youtube"@) || has_substring(host, "youtu.be"@)
}

pub open spec fn is_vimeo_host(host: Seq<char>) -> bool {
    has_substring(host, "vimeo"@)
}

pub open spec fn is_dailymotion_host(host: Seq<char>) -> bool {
    has_substring(host, "dailymotion"@)
}

/// The host names one of the known providers.
pub open spec fn is_known_host(host: Seq<char>) -> bool {
    is_youtube_host(host) || is_vimeo_host(host) || is_dailymotion_host(host)
}

/// The provider of a host: the first known provider whose marker the host
/// contains, checked in the order Youtube, Vimeo, Dailymotion; otherwise the
/// host itself.
pub open spec fn classify_host(host: Seq<char>) -> ProviderKind {
    if is_youtube_host(host) {
        ProviderKind::Youtube
    } else if is_vimeo_host(host) {
        ProviderKind::Vimeo
    } else if is_dailymotion_host(host) {
        ProviderKind::Dailymotion
    } else {
        ProviderKind::Other(host)
    }
}

impl VideoProvider {
    /// Classifies `s`: `Ok` with a known provider, or `Err(Other(s))`.
    pub fn from_host(s: &str) -> (r: Result<Self, Self>)
        ensures
            r is Ok <==> is_known_host(s@),
            match r {
                Ok(p) => p@ == classify_host(s@),
                Err(p) => p@ == classify_host(s@),
            },
    {
        if contains_text(s, "youtube") || contains_text(s, "youtu.be") {
            return Ok(VideoProvider::Youtube);
        }
        if contains_text(s, "vimeo") {
            return Ok(VideoProvider::Vimeo);
        }
        if contains_text(s, "dailymotion") {
            return Ok(VideoProvider::Dailymotion);
        }
        Err(VideoProvider::Other(s.to_owned()))
    }
}

} // verus!
