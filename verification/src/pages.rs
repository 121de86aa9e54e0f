//! What a test expects of the chat page, and what it says when the page
//! shows something else.

use vstd::prelude::*;
use vstd::string::*;
use crate::error::{ErrorView, HarnessError};
use crate::text::{join, joined, same_text, str_view, texts};

verus! {

/// Where a page is opened.
#[derive(Clone, Copy, Debug, PartialEq, Eq, Structural)]
pub enum PagePlan {
    /// In a new tab, to which the driver then switches.
    NewTab,
    /// In the window that the driver acts on.
    CurrentWindow,
}

/// A page is opened in a new tab where the window that the driver acts on
/// shows the application already, and in that window otherwise.
pub fn page_plan(app_url: &str, current_url: &str) -> (r: PagePlan)
    ensures
        r == if app_url@ == current_url@ {
            PagePlan::NewTab
        } else {
            PagePlan::CurrentWindow
        },
{
    if same_text(app_url, current_url) {
        PagePlan::NewTab
    } else {
        PagePlan::CurrentWindow
    }
}

/// Whether two lists hold the same texts in the same order.
pub fn same_texts(a: &Vec<String>, b: &Vec<String>) -> (r: bool)
    ensures
        r == (texts(a@) == texts(b@)),
{
    if a.len() != b.len() {
        assert(texts(a@).len() != texts(b@).len());
        return false;
    }
    let mut i: usize = 0;
    while i < a.len()
        invariant
            i <= a.len(),
            a.len() == b.len(),
            forall|k: int| 0 <= k < i ==> a@[k]@ == b@[k]@,
        decreases a.len() - i,
    {
        if !same_text(a[i].as_str(), b[i].as_str()) {
            assert(texts(a@)[i as int] != texts(b@)[i as int]);
            return false;
        }
        i += 1;
    }
    assert(texts(a@) =~= texts(b@));
    true
}

/// What is said where the page shows other messages than expected.
pub open spec fn messages_differ_text(expected: Seq<Seq<char>>, actual: Seq<Seq<char>>) -> Seq<
    char,
> {
    "Expected messages:\n "@ + joined(expected, "\n "@) + "\nare not equal to actual ones:\n "@
        + joined(actual, "\n "@)
}

/// What is said where the last message on the page is another than
/// expected.
pub open spec fn last_differs_text(expected: Seq<char>, actual: Seq<char>) -> Seq<char> {
    "The last message \""@ + actual + "\" is not equal to the expected one \""@ + expected
        + "\""@
}

/// What is said where the page shows no last message.
pub open spec fn no_last_message_text() -> Seq<char> {
    "Could not get the last chat message"@
}

/// Holds the messages on the page against those expected: they are to be
/// the same, in the same order.
pub fn expect_messages(actual: &Vec<String>, expected: &Vec<String>) -> (r: Result<
    (),
    HarnessError,
>)
    ensures
        r is Ok <==> texts(actual@) == texts(expected@),
        r matches Err(error) ==> error@ == ErrorView::AssertionFailure(
            messages_differ_text(texts(expected@), texts(actual@)),
        ),
{
    if same_texts(actual, expected) {
        return Ok(());
    }
    let mut text = String::from_str("Expected messages:\n ");
    let wanted = join(expected, "\n ");
    text.append(wanted.as_str());
    text.append("\nare not equal to actual ones:\n ");
    let shown = join(actual, "\n ");
    text.append(shown.as_str());
    Err(HarnessError::AssertionFailure(text))
}

/// The verdict on the last message of the page.
pub open spec fn last_message_verdict(
    found_with_text: bool,
    last: Option<Seq<char>>,
    expected: Seq<char>,
) -> Result<(), ErrorView> {
    if found_with_text {
        Ok(())
    } else {
        match last {
            None => Err(ErrorView::SessionFailure(no_last_message_text())),
            Some(actual) => if actual == expected {
                Ok(())
            } else {
                Err(ErrorView::AssertionFailure(last_differs_text(expected, actual)))
            },
        }
    }
}

/// Holds the last message on the page against the one expected.
/// `found_with_text` says whether a message with the expected text was found
/// on the page; where none was, `last` is the text of the page's last
/// message, if it has one.
pub fn expect_last_message(found_with_text: bool, last: Option<&str>, expected: &str) -> (r:
    Result<(), HarnessError>)
    ensures
        match r {
            Ok(_) => last_message_verdict(
                found_with_text,
                str_view(last),
                expected@,
            ) is Ok,
            Err(error) => last_message_verdict(
                found_with_text,
                str_view(last),
                expected@,
            ) == Err::<(), ErrorView>(error@),
        },
{
    if found_with_text {
        return Ok(());
    }
    match last {
        None => Err(
            HarnessError::SessionFailure(String::from_str("Could not get the last chat message")),
        ),
        Some(actual) => {
            if same_text(actual, expected) {
                Ok(())
            } else {
                let mut text = String::from_str("The last message \"");
                text.append(actual);
                text.append("\" is not equal to the expected one \"");
                text.append(expected);
                text.append("\"");
                Err(HarnessError::AssertionFailure(text))
            }
        },
    }
}

} // verus!
