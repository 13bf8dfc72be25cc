//! What can go wrong while the recorded interactions are loaded.

use vstd::prelude::*;
use vstd::string::*;
use crate::model::{clone_text, text_view};
use crate::text::join;

verus! {

/// What stands between a message and the path it is about.
pub const AT_PATH: &'static str = " - ";

/// What opens the message about a request that failed.
pub const REQUEST_FAILED: &'static str = "Request failed: ";

/// What opens the message about a body that is no JSON.
pub const BAD_JSON: &'static str = "Failed to parse JSON body: ";

/// What opens the message about a file that could not be read.
pub const BAD_FILE: &'static str = "Failed to load pact file: ";

/// What opens the message about a directory that could not be read.
pub const BAD_DIRECTORY: &'static str = "Could not load pacts from directory '";

/// What closes the directory's name in that message.
pub const BAD_DIRECTORY_REASON: &'static str = "' - ";

/// What opens the message about a document that a broker links to.
pub const BAD_LINK: &'static str = "Error loading \"";

/// What stands between the document's title and its address.
pub const BAD_LINK_ADDRESS: &'static str = "\" (";

/// What stands between the document's address and the reason.
pub const BAD_LINK_REASON: &'static str = ") - ";

/// The exit code of a start-up that failed to load its interactions.
pub const LOAD_FAILURE: i32 = 3;

/// An error from loading one source, with the path it concerns, if any.
#[derive(Debug, PartialEq, Eq)]
pub struct PactError {
    pub message: String,
    pub path: Option<String>,
}

/// The view of a `PactError`.
pub struct ErrorView {
    pub message: Seq<char>,
    pub path: Option<Seq<char>>,
}

impl View for PactError {
    type V = ErrorView;

    open spec fn view(&self) -> ErrorView {
        ErrorView { message: self.message@, path: text_view(self.path) }
    }
}

impl Clone for PactError {
    fn clone(&self) -> (r: Self)
        ensures
            r@ == self@,
    {
        PactError { message: self.message.clone(), path: clone_text(&self.path) }
    }
}

/// The text that shows an error: its message, then, where it has a path,
/// a dash and the path.
pub open spec fn error_text(error: ErrorView) -> Seq<char> {
    match error.path {
        Some(path) => error.message + AT_PATH@ + path,
        None => error.message,
    }
}

/// The title under which a linked document is reported: its title, else
/// its address, else nothing.
pub open spec fn link_title(title: Option<Seq<char>>, address: Option<Seq<char>>) -> Seq<char> {
    match title {
        Some(t) => t,
        None => link_address(address),
    }
}

/// The address under which a linked document is reported: its address, or
/// nothing where it has none.
pub open spec fn link_address(address: Option<Seq<char>>) -> Seq<char> {
    match address {
        Some(a) => a,
        None => Seq::empty(),
    }
}

impl PactError {
    /// An error with the message `str` and no path.
    pub fn new(str: String) -> (r: PactError)
        ensures
            r@ == (ErrorView { message: str@, path: None }),
    {
        PactError { message: str, path: None }
    }

    /// This error's message with `path` as its path, or with none where
    /// the path has no text.
    pub fn with_path(&self, path: Option<&str>) -> (r: PactError)
        ensures
            r@ == (ErrorView {
                message: self@.message,
                path: match path {
                    Some(p) => Some(p@),
                    None => None,
                },
            }),
    {
        PactError {
            message: self.message.clone(),
            path: match path {
                Some(p) => Some(p.to_owned()),
                None => None,
            },
        }
    }

    /// The text that shows this error.
    pub fn to_text(&self) -> (r: String)
        ensures
            r@ == error_text(self@),
    {
        match &self.path {
            Some(path) => {
                let mut text = self.message.clone();
                text.append(AT_PATH);
                text.append(path.as_str());
                text
            },
            None => self.message.clone(),
        }
    }

    /// The error of a request that failed for `reason`.
    pub fn request_failed(reason: &str) -> (r: PactError)
        ensures
            r@ == (ErrorView { message: REQUEST_FAILED@ + reason@, path: None }),
    {
        PactError::new(join(REQUEST_FAILED, reason))
    }

    /// The error of a body that is no JSON, for `reason`.
    pub fn invalid_json(reason: &str) -> (r: PactError)
        ensures
            r@ == (ErrorView { message: BAD_JSON@ + reason@, path: None }),
    {
        PactError::new(join(BAD_JSON, reason))
    }

    /// The error of a file that could not be read, for `reason`.
    pub fn unreadable_file(reason: &str) -> (r: PactError)
        ensures
            r@ == (ErrorView { message: BAD_FILE@ + reason@, path: None }),
    {
        PactError::new(join(BAD_FILE, reason))
    }

    /// The error of the directory `dir`, which could not be read because
    /// of `cause`.
    pub fn unreadable_directory(dir: &str, cause: &PactError) -> (r: PactError)
        ensures
            r@ == (ErrorView {
                message: BAD_DIRECTORY@ + dir@ + BAD_DIRECTORY_REASON@ + error_text(cause@),
                path: None,
            }),
    {
        let mut text = join(BAD_DIRECTORY, dir);
        text.append(BAD_DIRECTORY_REASON);
        text.append(cause.to_text().as_str());
        PactError::new(text)
    }

    /// The error of a document that a broker links to under `title` and
    /// `address`, and that could not be loaded for `reason`.
    pub fn unreadable_link(title: Option<&str>, address: Option<&str>, reason: &str) -> (r:
        PactError)
        ensures
            r@ == (ErrorView {
                message: BAD_LINK@ + link_title(
                    match title {
                        Some(t) => Some(t@),
                        None => None,
                    },
                    match address {
                        Some(a) => Some(a@),
                        None => None,
                    },
                ) + BAD_LINK_ADDRESS@ + link_address(
                    match address {
                        Some(a) => Some(a@),
                        None => None,
                    },
                ) + BAD_LINK_REASON@ + reason@,
                path: None,
            }),
    {
        let shown_address: &str = match address {
            Some(a) => a,
            None => "",
        };
        let shown_title: &str = match title {
            Some(t) => t,
            None => shown_address,
        };
        proof {
            reveal_strlit("");
            assert(""@ =~= Seq::<char>::empty());
        }
        let mut text = join(BAD_LINK, shown_title);
        text.append(BAD_LINK_ADDRESS);
        text.append(shown_address);
        text.append(BAD_LINK_REASON);
        text.append(reason);
        PactError::new(text)
    }
}

} // verus!
