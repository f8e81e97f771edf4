//! The record of one catalog entry and where its artifact is found.

use crate::score::Score;
use crate::search::{Arch, Language, Platform};
use vstd::prelude::*;
use vstd::string::StringExecFns;

verus! {

/// What a challenge record holds, as mathematical values.
pub struct ChallengeView {
    pub language: Language,
    pub author: Seq<char>,
    pub name: Seq<char>,
    pub url: Seq<char>,
    pub arch: Arch,
    pub difficulty: Seq<char>,
    pub quality: Seq<char>,
    pub platform: Platform,
}

/// One catalog entry: a downloadable exercise and its metadata.
#[derive(Debug, Clone, PartialEq, Eq)]
pub struct Challenge {
    pub language: Language,
    pub author: String,
    pub name: String,
    /// The catalog-relative address of the entry, as its link gave it.
    pub url: String,
    pub arch: Arch,
    pub difficulty: Score,
    pub quality: Score,
    pub platform: Platform,
}

impl View for Challenge {
    type V = ChallengeView;

    open spec fn view(&self) -> ChallengeView {
        ChallengeView {
            language: self.language,
            author: self.author@,
            name: self.name@,
            url: self.url@,
            arch: self.arch,
            difficulty: self.difficulty@,
            quality: self.quality@,
            platform: self.platform,
        }
    }
}

impl DeepView for Challenge {
    type V = ChallengeView;

    open spec fn deep_view(&self) -> ChallengeView {
        self@
    }
}

/// The address from which the artifact of an entry is fetched.
pub open spec fn download_url_of(url: Seq<char>) -> Seq<char> {
    "https://crackmes.one/static"@ + url + ".zip"@
}

/// The name of the local file that receives the artifact of an entry.
pub open spec fn file_name_of(name: Seq<char>) -> Seq<char> {
    name + ".zip"@
}

impl Challenge {
    /// The address from which the artifact of this entry is fetched.
    pub fn get_download_url(&self) -> (address: String)
        ensures
            address@ == download_url_of(self.url@),
    {
        let mut address = "https://crackmes.one/static".to_owned();
        address.append(self.url.as_str());
        address.append(".zip");
        address
    }

    /// The name of the local file that receives the artifact.
    pub fn file_name(&self) -> (file: String)
        ensures
            file@ == file_name_of(self.name@),
    {
        let mut file = self.name.clone();
        file.append(".zip");
        file
    }
}

} // verus!
