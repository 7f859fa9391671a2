//! What the HTTP server writes: its pages, and request bodies made
//! readable for the log.

use vstd::prelude::*;
use vstd::string::StringExecFns;

verus! {

/// The largest request body that is read, in bytes.
pub const BODY_BUFFER_SIZE: u16 = 1024;

/// The page with `head` among its head elements and `content` as its body.
pub open spec fn page_of(content: Seq<char>, head: Seq<char>) -> Seq<char> {
    "\n        <!DOCTYPE html>\n        <html>\n            <head>\n                <meta charset=\"utf-8\">\n                "@
        + head
        + "\n                <title>esp-rs web server</title>\n            </head>\n            <body>\n                "@
        + content
        + "\n            </body>\n        </html>\n        "@
}

/// Wraps `content` into a page with an empty slot in its head.
pub fn templated(content: &str) -> (page: String)
    ensures
        page@ == page_of(content@, ""@),
{
    templated_with_head(content, "")
}

/// Wraps `content` into a page and puts `head` into the page's head.
pub fn templated_with_head(content: &str, head: &str) -> (page: String)
    ensures
        page@ == page_of(content@, head@),
{
    let mut page = String::from_str(
        "\n        <!DOCTYPE html>\n        <html>\n            <head>\n                <meta charset=\"utf-8\">\n                ",
    );
    page.append(head);
    page.append(
        "\n                <title>esp-rs web server</title>\n            </head>\n            <body>\n                ",
    );
    page.append(content);
    page.append("\n            </body>\n        </html>\n        ");
    page
}

/// The page at the root: it sends the browser on to the app.
pub fn index_html() -> (page: String)
    ensures
        page@ == page_of(
            "Please download the app"@,
            "<meta http-equiv=\"Refresh\" content=\"0; URL=https://espoxi.github.io/\" />"@,
        ),
{
    templated_with_head(
        "Please download the app",
        "<meta http-equiv=\"Refresh\" content=\"0; URL=https://espoxi.github.io/\" />",
    )
}

/// The lower-case hexadecimal digit of `n`, for `n` in `0..16`.
pub open spec fn hex_digit(n: int) -> char {
    if n < 10 {
        (n + 48) as char
    } else {
        (n + 87) as char
    }
}

/// How one byte is written so that it can be read in a log: the usual
/// backslash escapes for tab, carriage return, line feed, the two quotes
/// and the backslash, printable ASCII as it is, and `\xNN` with two
/// lower-case hexadecimal digits for every other byte.
pub open spec fn escaped(b: u8) -> Seq<char> {
    if b == 0x09 {
        seq!['\\', 't']
    } else if b == 0x0D {
        seq!['\\', 'r']
    } else if b == 0x0A {
        seq!['\\', 'n']
    } else if b == 0x27 {
        seq!['\\', '\'']
    } else if b == 0x22 {
        seq!['\\', '"']
    } else if b == 0x5C {
        seq!['\\', '\\']
    } else if 0x20 <= b <= 0x7E {
        seq![b as char]
    } else {
        seq!['\\', 'x', hex_digit(b as int / 16), hex_digit(b as int % 16)]
    }
}

/// The bytes written one after the other, each escaped.
pub open spec fn shown(bs: Seq<u8>) -> Seq<char>
    decreases bs.len(),
{
    if bs.len() == 0 {
        Seq::<char>::empty()
    } else {
        shown(bs.drop_last()) + escaped(bs.last())
    }
}

/// `std::ascii::escape_default`, collected into a string. std documents
/// the escapes byte by byte; `escaped` repeats that list.
#[verifier::external_body]
fn escape(b: u8) -> (text: String)
    ensures
        text@ == escaped(b),
{
    std::ascii::escape_default(b).to_string()
}

/// Makes a request body readable: every byte is escaped as `escaped`
/// says.
pub fn show(bs: &[u8]) -> (visible: String)
    ensures
        visible@ == shown(bs@),
{
    let mut visible = String::new();
    let mut i: usize = 0;
    while i < bs.len()
        invariant
            i <= bs@.len(),
            visible@ == shown(bs@.subrange(0, i as int)),
        decreases bs@.len() - i,
    {
        let part = escape(bs[i]);
        proof {
            let done = bs@.subrange(0, i as int + 1);
            assert(done.drop_last() =~= bs@.subrange(0, i as int));
            assert(done.last() == bs@[i as int]);
        }
        visible.append(part.as_str());
        i += 1;
    }
    assert(bs@.subrange(0, i as int) =~= bs@);
    visible
}

} // verus!
