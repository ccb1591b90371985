//! Serving the pages that show a published description.

use vstd::prelude::*;

use crate::text::is_word;

verus! {

/// One description that the pages offer: its name in the list, and the URL
/// under which it is published.
#[non_exhaustive]
#[derive(Clone, Debug, PartialEq, Eq, Default)]
pub struct Url {
    name: String,
    url: String,
    primary: bool,
}

impl Url {
    /// The name in the list of descriptions.
    pub closed spec fn spec_name(&self) -> Seq<char> {
        self.name@
    }

    /// The URL under which the description is published.
    pub closed spec fn spec_url(&self) -> Seq<char> {
        self.url@
    }

    /// Whether this is the description that is shown first.
    pub closed spec fn spec_primary(&self) -> bool {
        self.primary
    }

    /// The description named `name` at `url`. It is not marked as the one
    /// to show first.
    pub fn new(name: &str, url: &str) -> (made: Self)
        ensures
            made.spec_name() == name@,
            made.spec_url() == url@,
            !made.spec_primary(),
    {
        Url { name: name.to_owned(), url: url.to_owned(), primary: false }
    }

    /// The description named `name` at `url`, which is shown first if
    /// `primary` says so.
    pub fn with_primary(name: &str, url: &str, primary: bool) -> (made: Self)
        ensures
            made.spec_name() == name@,
            made.spec_url() == url@,
            made.spec_primary() == primary,
    {
        Url { name: name.to_owned(), url: url.to_owned(), primary }
    }

    /// The description at `url`, without a name.
    pub fn from_url(url: &str) -> (made: Self)
        ensures
            made.spec_name().len() == 0,
            made.spec_url() == url@,
            !made.spec_primary(),
    {
        Url { name: String::new(), url: url.to_owned(), primary: false }
    }

    /// The name in the list of descriptions.
    pub fn name(&self) -> (name: &str)
        ensures
            name@ == self.spec_name(),
    {
        self.name.as_str()
    }

    /// The URL under which the description is published.
    pub fn url(&self) -> (url: &str)
        ensures
            url@ == self.spec_url(),
    {
        self.url.as_str()
    }

    /// Whether this is the description that is shown first.
    pub fn is_primary(&self) -> (primary: bool)
        ensures
            primary == self.spec_primary(),
    {
        self.primary
    }
}

/// A file of the pages, ready to be sent.
#[non_exhaustive]
#[derive(Clone, Debug, PartialEq, Eq)]
pub struct SwaggerFile {
    /// The content of the file.
    pub bytes: Vec<u8>,
    /// The media type of the file, such as `text/xml`.
    pub content_type: String,
}

impl SwaggerFile {
    /// The file with this content and this media type.
    pub fn new(bytes: Vec<u8>, content_type: String) -> (file: Self)
        ensures
            file.bytes == bytes,
            file.content_type == content_type,
    {
        SwaggerFile { bytes, content_type }
    }
}

/// The file that is asked for with the path `path` below the root of the
/// pages: the path itself, and `index.html` for the root.
pub open spec fn spec_served_path(path: Seq<char>) -> Seq<char> {
    if path.len() == 0 || path == "/"@ {
        "index.html"@
    } else {
        path
    }
}

/// The file that is asked for with the path `path` below the root of the pages.
pub fn served_path(path: &str) -> (file: &str)
    ensures
        file@ == spec_served_path(path@),
{
    if path.unicode_len() == 0 || is_word(path, "/") {
        "index.html"
    } else {
        path
    }
}

/// Whether the file at `path` is the one into which the configuration is written.
pub fn holds_config(path: &str) -> (holds: bool)
    ensures
        holds == (path@ == "swagger-initializer.js"@),
{
    is_word(path, "swagger-initializer.js")
}

} // verus!
