//! A type that is one of several kinds of value, and a report for each.

use crate::util::numeral::push_signed_decimal;
use crate::util::numeral::signed_decimal;
use vstd::prelude::*;
use vstd::string::*;

verus! {

/// What a visitor did on a page.
#[derive(Debug, PartialEq, Eq)]
pub enum WebEvent {
    PageLoaded,
    PageUnloaded,
    KeyPressed(char),
    Copy(String),
    Paste(String),
    Clicked { x: i64, y: i64 },
}

impl WebEvent {
    /// The line that reports the event.
    pub open spec fn report(self) -> Seq<char> {
        match self {
            WebEvent::PageLoaded => "loaded"@,
            WebEvent::PageUnloaded => "unloaded"@,
            WebEvent::KeyPressed(key) => "key "@.push(key) + " pressed"@,
            WebEvent::Copy(string) => string@ + " copied"@,
            WebEvent::Paste(string) => string@ + " pasted"@,
            WebEvent::Clicked { x, y } => "("@ + signed_decimal(x as int) + ","@ + signed_decimal(
                y as int,
            ) + ") clicked"@,
        }
    }
}

/// Writes the line that reports `event`.
pub fn inspect(event: WebEvent) -> (line: String)
    ensures
        line@ == event.report(),
{
    match event {
        WebEvent::PageLoaded => "loaded".to_owned(),
        WebEvent::PageUnloaded => "unloaded".to_owned(),
        WebEvent::KeyPressed(key) => {
            let mut line = "key ".to_owned();
            line.push(key);
            line.append(" pressed");
            line
        },
        WebEvent::Copy(string) => string.concat(" copied"),
        WebEvent::Paste(string) => string.concat(" pasted"),
        WebEvent::Clicked { x, y } => {
            let mut line = "(".to_owned();
            push_signed_decimal(&mut line, x);
            line.append(",");
            push_signed_decimal(&mut line, y);
            line.append(") clicked");
            line
        },
    }
}

} // verus!
