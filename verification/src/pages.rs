//! The pages a browser is shown. A page is a template in which the marked
//! places are filled in; the templates themselves are kept by the program
//! that serves them.

use crate::decimal::{decimal, to_decimal};
use crate::handlers::version::{released_version, VersionHandler};
use vstd::prelude::*;
use vstd::string::*;

verus! {

pub struct Page;

/// `text` with every occurrence of `from` replaced by `to`. Occurrences are
/// found from the left and do not overlap; what was put in is not searched
/// again.
pub open spec fn replaced(text: Seq<char>, from: Seq<char>, to: Seq<char>) -> Seq<char>
    decreases text.len(),
{
    if from.len() == 0 || text.len() < from.len() {
        text
    } else if text.subrange(0, from.len() as int) == from {
        to + replaced(text.subrange(from.len() as int, text.len() as int), from, to)
    } else {
        seq![text[0]] + replaced(text.subrange(1, text.len() as int), from, to)
    }
}

/// The page on which a user uploads an image: the template with the
/// version, the user's name and the user's id filled in, in this order.
pub open spec fn upload_page(template: Seq<char>, username: Seq<char>, user_id: u32) -> Seq<char> {
    replaced(
        replaced(
            replaced(template, "{{version}}"@, released_version()),
            "{{username}}"@,
            username,
        ),
        "{{user_id}}"@,
        decimal(user_id as nat),
    )
}

/// The page that tells of a failure: the template with the message and the
/// status filled in, in this order.
pub open spec fn error_page(template: Seq<char>, status_code: u16, msg: Seq<char>) -> Seq<char> {
    replaced(
        replaced(template, "{{error_message}}"@, msg),
        "{{status_code}}"@,
        decimal(status_code as nat),
    )
}

/// `str::replace` with a text as the pattern: a copy of the text in which
/// every match of the pattern is replaced. The matches are those that
/// `str::match_indices` gives: found from the left, and of matches that
/// overlap only the first. An empty pattern, which matches between any two
/// characters, is left out.
#[verifier::external_body]
fn replace_all(text: &str, from: &str, to: &str) -> (result: String)
    requires
        from@.len() > 0,
    ensures
        result@ == replaced(text@, from@, to@),
{
    text.replace(from, to)
}

impl Page {
    /// The page on which a user uploads an image.
    pub fn upload(template: &str, username: &str, user_id: u32) -> (page: String)
        ensures
            page@ == upload_page(template@, username@, user_id),
    {
        proof {
            reveal_strlit("{{version}}");
            reveal_strlit("{{username}}");
            reveal_strlit("{{user_id}}");
        }
        let with_version = replace_all(template, "{{version}}", VersionHandler::get().version);
        let with_name = replace_all(with_version.as_str(), "{{username}}", username);
        let id = to_decimal(user_id as u64);
        replace_all(with_name.as_str(), "{{user_id}}", id.as_str())
    }

    /// The page on which a user logs in: the template as it is.
    pub fn login(template: &str) -> (page: String)
        ensures
            page@ == template@,
    {
        String::from_str(template)
    }

    /// The page that tells of a failure.
    pub fn error(template: &str, status_code: u16, msg: &str) -> (page: String)
        ensures
            page@ == error_page(template@, status_code, msg@),
    {
        proof {
            reveal_strlit("{{error_message}}");
            reveal_strlit("{{status_code}}");
        }
        let with_message = replace_all(template, "{{error_message}}", msg);
        let status = to_decimal(status_code as u64);
        replace_all(with_message.as_str(), "{{status_code}}", status.as_str())
    }
}

} // verus!
