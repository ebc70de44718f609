//! The text that a run prints: the progress line, the diagnostics of a
//! response, and the line for a failed request.

use vstd::prelude::*;
use vstd::string::StringExecFns;

verus! {

/// The character of one decimal digit.
pub open spec fn digit(d: nat) -> char
    recommends
        d < 10,
{
    if d == 0 {
        '0'
    } else if d == 1 {
        '1'
    } else if d == 2 {
        '2'
    } else if d == 3 {
        '3'
    } else if d == 4 {
        '4'
    } else if d == 5 {
        '5'
    } else if d == 6 {
        '6'
    } else if d == 7 {
        '7'
    } else if d == 8 {
        '8'
    } else {
        '9'
    }
}

/// The decimal numeral of `n`: no sign, no leading zero, `0` for zero.
pub open spec fn decimal(n: nat) -> Seq<char>
    decreases n,
{
    if n < 10 {
        seq![digit(n)]
    } else {
        decimal(n / 10).push(digit(n % 10))
    }
}

/// The progress line for a snapshot of the two counters.
pub open spec fn snapshot_text(total_completed: nat, in_flight: nat) -> Seq<char> {
    "Total requests: "@ + decimal(total_completed) + "\tIn-flight requests: "@ + decimal(in_flight)
}

/// The line that gives a response's status.
pub open spec fn status_text(status: Seq<char>) -> Seq<char> {
    "---- Response status "@ + status
}

/// The line that stands above a response's headers.
pub open spec fn headers_title() -> Seq<char> {
    "---- Response headers:"@
}

/// The line for one header of a response.
pub open spec fn header_text(name: Seq<char>, value: Seq<char>) -> Seq<char> {
    name + ": "@ + value
}

/// The line for a request that failed with `description`.
pub open spec fn error_text(description: Seq<char>) -> Seq<char> {
    "request error: "@ + description
}

/// What a response shows before its body is read: the status as the
/// executor renders it, and each header as a name and a value, in the order
/// in which they were received.
pub struct ResponseHead {
    pub status: String,
    pub headers: Vec<(String, String)>,
}

impl ResponseHead {
    /// The diagnostic lines of this response, in the order in which they are
    /// printed: the status, the title of the headers, then one line for each
    /// header.
    pub open spec fn text(&self) -> Seq<Seq<char>> {
        Seq::new(
            self.headers@.len() + 2,
            |i: int|
                if i == 0 {
                    status_text(self.status@)
                } else if i == 1 {
                    headers_title()
                } else {
                    header_text(self.headers@[i - 2].0@, self.headers@[i - 2].1@)
                },
        )
    }
}

/// The lines of a sequence of strings, each as its characters.
pub open spec fn lines_text(lines: Seq<String>) -> Seq<Seq<char>> {
    Seq::new(lines.len(), |i: int| lines[i]@)
}

fn digit_text(d: usize) -> (s: &'static str)
    requires
        d < 10,
    ensures
        s@ == seq![digit(d as nat)],
{
    proof {
        reveal_strlit("0");
        reveal_strlit("1");
        reveal_strlit("2");
        reveal_strlit("3");
        reveal_strlit("4");
        reveal_strlit("5");
        reveal_strlit("6");
        reveal_strlit("7");
        reveal_strlit("8");
        reveal_strlit("9");
    }
    let s = if d == 0 {
        "0"
    } else if d == 1 {
        "1"
    } else if d == 2 {
        "2"
    } else if d == 3 {
        "3"
    } else if d == 4 {
        "4"
    } else if d == 5 {
        "5"
    } else if d == 6 {
        "6"
    } else if d == 7 {
        "7"
    } else if d == 8 {
        "8"
    } else {
        "9"
    };
    assert(s@ =~= seq![digit(d as nat)]);
    s
}

/// Appends the decimal numeral of `n` to `text`.
pub fn push_decimal(text: &mut String, n: usize)
    ensures
        final(text)@ == old(text)@ + decimal(n as nat),
    decreases n,
{
    if n >= 10 {
        push_decimal(text, n / 10);
    }
    text.append(digit_text(n % 10));
    assert(text@ =~= old(text)@ + decimal(n as nat));
}

/// The progress line of the report: the total of completed requests and the
/// number of requests in flight, as they were read. The line depends on
/// these two values alone.
pub fn snapshot_line(total_completed: usize, in_flight: usize) -> (line: String)
    ensures
        line@ == snapshot_text(total_completed as nat, in_flight as nat),
{
    let mut line = String::from_str("Total requests: ");
    push_decimal(&mut line, total_completed);
    line.append("\tIn-flight requests: ");
    push_decimal(&mut line, in_flight);
    line
}

/// The line for a request that failed: the description of the error behind
/// a fixed heading.
pub fn error_line(description: &str) -> (line: String)
    ensures
        line@ == error_text(description@),
{
    let mut line = String::from_str("request error: ");
    line.append(description);
    line
}

/// The diagnostic lines of a response: its status, then its headers, one
/// line each and in the order received.
pub fn head_lines(head: &ResponseHead) -> (lines: Vec<String>)
    ensures
        lines_text(lines@) == head.text(),
{
    let mut lines: Vec<String> = Vec::new();
    let mut status = String::from_str("---- Response status ");
    status.append(head.status.as_str());
    lines.push(status);
    lines.push(String::from_str("---- Response headers:"));
    let mut i: usize = 0;
    while i < head.headers.len()
        invariant
            i <= head.headers.len(),
            lines.len() == i + 2,
            forall|k: int| 0 <= k < lines.len() ==> (#[trigger] lines@[k])@ == head.text()[k],
        decreases head.headers.len() - i,
    {
        let header = &head.headers[i];
        let mut line = String::from_str(header.0.as_str());
        line.append(": ");
        line.append(header.1.as_str());
        lines.push(line);
        i = i + 1;
    }
    assert(lines_text(lines@) =~= head.text());
    lines
}

/// What is printed for a response when its head arrives: the diagnostic
/// lines when `debug` is set, and nothing otherwise.
pub fn debug_lines(debug: bool, head: &ResponseHead) -> (lines: Vec<String>)
    ensures
        lines_text(lines@) == if debug {
            head.text()
        } else {
            Seq::<Seq<char>>::empty()
        },
{
    if debug {
        head_lines(head)
    } else {
        let lines: Vec<String> = Vec::new();
        assert(lines_text(lines@) =~= Seq::<Seq<char>>::empty());
        lines
    }
}

} // verus!
