//! The cache: where its slots lie and which requests it takes.

use crate::encoding::{
    base64_text, file_name_of_digest, is_file_name_char, is_reserved_in_paths,
    lemma_base64_text_injective, lemma_url_safe_text, Alphabet,
};
use crate::error::CacheError;
use crate::folder_manager::{data_path, get_local_usr_data_path};
use crate::hashing::{sha3_512, sha3_512_digest};
use crate::protocol::{CacheFile, CacheFileView, Goal, Operation, OperationView, Stage};
use vstd::prelude::*;
use vstd::utf8::{encode_utf8, encode_utf8_decode_utf8};

verus! {

/// The name of the file that holds the slot of `key`: the URL-safe base64
/// text, without padding, of the SHA3-512 digest of the key's UTF-8 bytes.
pub open spec fn file_name(key: Seq<char>) -> Seq<char> {
    base64_text(sha3_512(encode_utf8(key)), Alphabet::UrlSafe, false)
}

/// The stage at which a request for `goal` starts.
pub open spec fn first_stage(goal: Goal) -> Stage {
    match goal {
        Goal::Locate | Goal::Load => Stage::ProbingForFetch,
        Goal::Invalidate | Goal::Refresh => Stage::ProbingForRemoval,
    }
}

/// A cache of remote resources in one folder. The folder is fixed when the
/// cache is made.
pub struct BTCache {
    folder_path: String,
}

impl BTCache {
    /// The text of the cache folder's path.
    pub closed spec fn folder(&self) -> Seq<char> {
        self.folder_path@
    }

    /// The slot of `key` in this cache.
    pub open spec fn slot(&self, key: Seq<char>) -> CacheFileView {
        CacheFileView { folder: self.folder(), name: file_name(key) }
    }

    /// The request for `goal` on the slot of `key`, at its start. `url` is
    /// where to fetch from, and `token` what to show there.
    pub open spec fn request(
        &self,
        goal: Goal,
        url: Seq<char>,
        key: Seq<char>,
        token: Option<Seq<char>>,
    ) -> OperationView {
        OperationView { goal, stage: first_stage(goal), url, token, file: self.slot(key) }
    }

    /// A cache in the folder `cache` of the application's data folder below
    /// `base`. Fails with `DirectoryResolution` when that folder's path has
    /// no text. The folder is not created here.
    pub fn new(base: &str, app_folder_name: Option<&str>) -> (cache: Result<BTCache, CacheError>)
        ensures
            match data_path(base@, app_folder_name.deep_view(), Some("cache"@)) {
                Some(text) => cache matches Ok(c) && c.folder() == text,
                None => cache matches Err(e) && e == CacheError::DirectoryResolution,
            },
    {
        match get_local_usr_data_path(base, app_folder_name, Some("cache")) {
            Ok(folder_path) => Ok(BTCache { folder_path }),
            Err(e) => Err(e),
        }
    }

    /// The text of the cache folder's path.
    pub fn folder_path(&self) -> (text: &str)
        ensures
            text@ == self.folder(),
    {
        self.folder_path.as_str()
    }

    /// The name of the file that holds the slot of the key `input`. It is a
    /// function of the key alone, has 86 characters, and holds nothing but
    /// ASCII letters, ASCII digits, `-` and `_`.
    pub fn get_hash_string_base64(input: &str) -> (name: String)
        ensures
            name@ == file_name(input@),
            name@.len() == 86,
            forall|i: int| 0 <= i < name@.len() ==> is_file_name_char(#[trigger] name@[i]),
    {
        let digest = sha3_512_digest(input.as_bytes());
        proof {
            lemma_url_safe_text(digest@);
        }
        file_name_of_digest(&digest)
    }

    /// The file that holds the slot of the key `file_name`.
    pub fn get_file(&self, file_name: &str) -> (file: CacheFile)
        ensures
            file@ == self.slot(file_name@),
    {
        CacheFile {
            folder: self.folder_path.clone(),
            name: Self::get_hash_string_base64(file_name),
        }
    }

    /// The request for `goal` at its start.
    fn start(&self, goal: Goal, url: &str, file_name: &str, token: Option<&str>) -> (op: Operation)
        ensures
            op@ == self.request(goal, url@, file_name@, token.deep_view()),
    {
        let stage = match goal {
            Goal::Locate | Goal::Load => Stage::ProbingForFetch,
            Goal::Invalidate | Goal::Refresh => Stage::ProbingForRemoval,
        };
        let token = match token {
            Some(t) => Some(t.to_owned()),
            None => None,
        };
        Operation { goal, stage, url: url.to_owned(), token, file: self.get_file(file_name) }
    }

    /// Asks for the path of the file cached for `url`, which is fetched from
    /// `url` first if the cache holds none.
    pub fn get_local_file_path(&self, url: &str) -> (op: Operation)
        ensures
            op@ == self.request(Goal::Locate, url@, url@, None),
    {
        self.start(Goal::Locate, url, url, None)
    }

    /// Asks for the path of the file cached under the key `file_name`, which
    /// is fetched from `url` first if the cache holds none.
    pub fn get_local_file_path_with_name(&self, url: &str, file_name: &str) -> (op: Operation)
        ensures
            op@ == self.request(Goal::Locate, url@, file_name@, None),
    {
        self.start(Goal::Locate, url, file_name, None)
    }

    /// Asks for the path of the file cached under the key `file_name`, which
    /// is fetched from `url` first if the cache holds none. The token goes
    /// with every fetch of the request, and nowhere else.
    pub fn get_local_file_path_with_name_token(
        &self,
        url: &str,
        file_name: &str,
        token: Option<&str>,
    ) -> (op: Operation)
        ensures
            op@ == self.request(Goal::Locate, url@, file_name@, token.deep_view()),
    {
        self.start(Goal::Locate, url, file_name, token)
    }

    /// Asks for the content, as standard base64 text, of the file cached for
    /// `url`, which is fetched first if the cache holds none.
    pub fn get_file_data_base64(&self, url: &str) -> (op: Operation)
        ensures
            op@ == self.request(Goal::Load, url@, url@, None),
    {
        self.start(Goal::Load, url, url, None)
    }

    /// Asks for the content, as standard base64 text, of the file cached
    /// under the key `file_name`, which is fetched from `url` first if the
    /// cache holds none.
    pub fn get_file_data_base64_with_name(&self, url: &str, file_name: &str) -> (op: Operation)
        ensures
            op@ == self.request(Goal::Load, url@, file_name@, None),
    {
        self.start(Goal::Load, url, file_name, None)
    }

    /// Asks for the content, as standard base64 text, of the file cached
    /// under the key `file_name`, which is fetched from `url` with `token`
    /// first if the cache holds none.
    pub fn get_file_data_base64_with_name_token(
        &self,
        url: &str,
        file_name: &str,
        token: Option<&str>,
    ) -> (op: Operation)
        ensures
            op@ == self.request(Goal::Load, url@, file_name@, token.deep_view()),
    {
        self.start(Goal::Load, url, file_name, token)
    }

    /// Asks for the file cached for `url` to be deleted. A key without a
    /// cached file makes the request fail with `NotFound`.
    pub fn invalidate_cache(&self, url: &str) -> (op: Operation)
        ensures
            op@ == self.request(Goal::Invalidate, url@, url@, None),
    {
        self.start(Goal::Invalidate, url, url, None)
    }

    /// Asks for the file cached for `url` to be deleted and fetched anew, and
    /// for its path. A key without a cached file makes the request fail.
    pub fn refresh_cache(&self, url: &str) -> (op: Operation)
        ensures
            op@ == self.request(Goal::Refresh, url@, url@, None),
    {
        self.start(Goal::Refresh, url, url, None)
    }

    /// Asks for the file cached under the key `name` to be deleted and
    /// fetched anew from `url` with `token`, and for its path.
    pub fn refresh_cache_with_name(&self, url: &str, name: &str, token: Option<&str>) -> (op:
        Operation)
        ensures
            op@ == self.request(Goal::Refresh, url@, name@, token.deep_view()),
    {
        self.start(Goal::Refresh, url, name, token)
    }

    /// Asks for the file cached for `url` to be deleted and fetched anew with
    /// `token`, and for its path.
    pub fn refresh_cache_with_token(&self, url: &str, token: Option<&str>) -> (op: Operation)
        ensures
            op@ == self.request(Goal::Refresh, url@, url@, token.deep_view()),
    {
        self.start(Goal::Refresh, url, url, token)
    }
}

/// Whatever the key holds (slashes, a query, text that is not ASCII), the name
/// of its file is made of ASCII letters, ASCII digits, `-` and `_` alone: it
/// holds no path separator and no character that a file system reserves.
pub proof fn lemma_file_name_is_safe(key: Seq<char>)
    ensures
        forall|i: int|
            0 <= i < file_name(key).len() ==> is_file_name_char(#[trigger] file_name(key)[i])
                && !is_reserved_in_paths(file_name(key)[i]),
{
    lemma_url_safe_text(sha3_512(encode_utf8(key)));
}

/// Two keys share a file exactly when their digests are the same. Keys that
/// differ have bytes that differ, so they share a file only where SHA3-512
/// gives one digest for two inputs.
pub proof fn lemma_file_names_differ(first: Seq<char>, second: Seq<char>)
    ensures
        first != second ==> encode_utf8(first) != encode_utf8(second),
        file_name(first) == file_name(second) <==> sha3_512(encode_utf8(first)) == sha3_512(
            encode_utf8(second),
        ),
{
    encode_utf8_decode_utf8(first);
    encode_utf8_decode_utf8(second);
    lemma_base64_text_injective(
        sha3_512(encode_utf8(first)),
        sha3_512(encode_utf8(second)),
        Alphabet::UrlSafe,
        false,
    );
}

} // verus!
