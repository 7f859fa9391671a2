//! The body of a request of the first API: lines of text, split at the
//! line feeds. And the page that this API serves.

use vstd::prelude::*;
use vstd::string::StringExecFns;

verus! {

/// The largest request body that is read, in bytes.
pub const BODY_BUFFER_SIZE: u16 = 1024;

/// The position of the first line feed in `body`, or its length where
/// there is none.
pub open spec fn first_line_feed(body: Seq<u8>) -> int
    decreases body.len(),
{
    if body.len() == 0 {
        0
    } else if body[0] == 0x0A {
        0
    } else {
        1 + first_line_feed(body.drop_first())
    }
}

/// The lines of `body`: the stretches between its line feeds, the line
/// feeds left out. A body without line feed is one line, so there is
/// always one line more than there are line feeds.
pub open spec fn lines_of(body: Seq<u8>) -> Seq<Seq<u8>>
    decreases body.len(),
    via lines_of_decreases
{
    let k = first_line_feed(body);
    if k >= body.len() {
        seq![body]
    } else {
        seq![body.subrange(0, k)] + lines_of(body.subrange(k + 1, body.len() as int))
    }
}

#[via_fn]
proof fn lines_of_decreases(body: Seq<u8>) {
    lemma_first_line_feed(body);
}

/// `first_line_feed` is a position of the body or its length; no byte
/// before it is a line feed, and the byte at it is one.
pub proof fn lemma_first_line_feed(body: Seq<u8>)
    ensures
        0 <= first_line_feed(body) <= body.len(),
        forall|j: int| 0 <= j < first_line_feed(body) ==> #[trigger] body[j] != 0x0A,
        first_line_feed(body) < body.len() ==> body[first_line_feed(body)] == 0x0A,
    decreases body.len(),
{
    if body.len() > 0 && body[0] != 0x0A {
        let rest = body.drop_first();
        lemma_first_line_feed(rest);
        assert forall|j: int| 0 <= j < first_line_feed(body) implies #[trigger] body[j]
            != 0x0A by {
            if j > 0 {
                assert(body[j] == rest[j - 1]);
            }
        }
        if first_line_feed(rest) < rest.len() {
            assert(body[first_line_feed(body)] == rest[first_line_feed(rest)]);
        }
    }
}

/// A position that has a line feed, with none before it, is the first.
pub proof fn lemma_first_line_feed_found(body: Seq<u8>, k: int)
    requires
        0 <= k <= body.len(),
        forall|j: int| 0 <= j < k ==> #[trigger] body[j] != 0x0A,
        k < body.len() ==> body[k] == 0x0A,
    ensures
        first_line_feed(body) == k,
{
    lemma_first_line_feed(body);
    let f = first_line_feed(body);
    if f < k {
        assert(body[f] != 0x0A);
    }
}

/// What the byte vectors hold, one sequence for each.
pub open spec fn contents(lines: Seq<Vec<u8>>) -> Seq<Seq<u8>> {
    Seq::new(lines.len(), |i: int| lines[i]@)
}

/// Splits a request body into its lines.
pub fn parse_multiline(body: &[u8]) -> (lines: Vec<Vec<u8>>)
    ensures
        contents(lines@) == lines_of(body@),
{
    let mut lines: Vec<Vec<u8>> = Vec::new();
    let mut line: Vec<u8> = Vec::new();
    let mut start: usize = 0;
    let mut i: usize = 0;
    assert(body@.subrange(0, body@.len() as int) =~= body@);
    assert(contents(lines@) + lines_of(body@) =~= lines_of(body@));
    while i < body.len()
        invariant
            start <= i <= body@.len(),
            line@ == body@.subrange(start as int, i as int),
            forall|j: int| start <= j < i ==> #[trigger] body@[j] != 0x0A,
            lines_of(body@) == contents(lines@) + lines_of(
                body@.subrange(start as int, body@.len() as int),
            ),
        decreases body@.len() - i,
    {
        let ghost rest = body@.subrange(start as int, body@.len() as int);
        let byte = body[i];
        if byte == 0x0A {
            let ghost before = contents(lines@);
            let ghost tail = body@.subrange(i as int + 1, body@.len() as int);
            proof {
                lemma_first_line_feed_found(rest, i - start);
                assert(rest.subrange(0, i - start) =~= line@);
                assert(rest.subrange(i - start + 1, rest.len() as int) =~= tail);
                assert(lines_of(rest) == seq![line@] + lines_of(tail));
            }
            lines.push(line);
            proof {
                assert(contents(lines@) =~= before + seq![body@.subrange(start as int, i as int)]);
                assert(lines_of(body@) =~= contents(lines@) + lines_of(tail));
            }
            line = Vec::new();
            start = i + 1;
            assert(line@ =~= body@.subrange(start as int, i as int + 1));
        } else {
            line.push(byte);
            assert(line@ =~= body@.subrange(start as int, i as int + 1));
        }
        i += 1;
    }
    let ghost before = contents(lines@);
    proof {
        let rest = body@.subrange(start as int, body@.len() as int);
        lemma_first_line_feed_found(rest, rest.len() as int);
        assert(line@ =~= rest);
        assert(lines_of(rest) == seq![rest]);
    }
    lines.push(line);
    proof {
        assert(contents(lines@) =~= before + seq![body@.subrange(start as int, body@.len() as int)]);
    }
    lines
}

/// The page that wraps `content`.
pub open spec fn page_of(content: Seq<char>) -> Seq<char> {
    "\n        <!DOCTYPE html>\n        <html>\n            <head>\n                <meta charset=\"utf-8\">\n                <title>esp-rs web server</title>\n            </head>\n            <body>\n                "@
        + content
        + "\n            </body>\n        </html>\n        "@
}

/// Wraps `content` into a page.
pub fn templated(content: &str) -> (page: String)
    ensures
        page@ == page_of(content@),
{
    let mut page = String::from_str(
        "\n        <!DOCTYPE html>\n        <html>\n            <head>\n                <meta charset=\"utf-8\">\n                <title>esp-rs web server</title>\n            </head>\n            <body>\n                ",
    );
    page.append(content);
    page.append("\n            </body>\n        </html>\n        ");
    page
}

/// The page at the root of the first API.
pub fn index_html() -> (page: String)
    ensures
        page@ == page_of("Please download the app"@),
{
    templated("Please download the app")
}

} // verus!
