//! The pages of the frontend, written as bytes.

use vstd::prelude::*;
use vstd::string::StringSliceAdditionalSpecFns;
use crate::web::statics::StaticFile;

verus! {

pub const AMPERSAND: &'static str = "&amp;";

pub const LESS_THAN: &'static str = "&lt;";

pub const GREATER_THAN: &'static str = "&gt;";

pub const DOUBLE_QUOTE: &'static str = "&quot;";

pub const SINGLE_QUOTE: &'static str = "&#39;";

/// What stands for one byte of text in a page: the five characters that
/// mean something in HTML are written as entities, every other byte stays.
pub open spec fn escaped_byte(b: u8) -> Seq<u8> {
    if b == 38 {
        AMPERSAND.spec_bytes()
    } else if b == 60 {
        LESS_THAN.spec_bytes()
    } else if b == 62 {
        GREATER_THAN.spec_bytes()
    } else if b == 34 {
        DOUBLE_QUOTE.spec_bytes()
    } else if b == 39 {
        SINGLE_QUOTE.spec_bytes()
    } else {
        seq![b]
    }
}

/// What stands for a text in a page: each of its bytes, escaped.
pub open spec fn escaped(text: Seq<u8>) -> Seq<u8>
    decreases text.len(),
{
    if text.len() == 0 {
        Seq::empty()
    } else {
        escaped(text.drop_last()) + escaped_byte(text.last())
    }
}

/// Writes a text into a page, escaped.
pub fn write_escaped(out: &mut Vec<u8>, text: &str)
    ensures
        final(out)@ == old(out)@ + escaped(text.spec_bytes()),
{
    let bytes = text.as_bytes();
    let mut i: usize = 0;
    assert(bytes@.take(0) =~= Seq::<u8>::empty());
    assert(out@ + Seq::<u8>::empty() =~= out@);
    while i < bytes.len()
        invariant
            i <= bytes.len(),
            bytes@ == text.spec_bytes(),
            out@ == old(out)@ + escaped(bytes@.take(i as int)),
        decreases bytes.len() - i,
    {
        let b = bytes[i];
        let ghost before = out@;
        proof {
            assert(bytes@.take(i + 1).drop_last() =~= bytes@.take(i as int));
            assert(bytes@.take(i + 1).last() == b);
        }
        if b == 38 {
            out.extend_from_slice(AMPERSAND.as_bytes());
        } else if b == 60 {
            out.extend_from_slice(LESS_THAN.as_bytes());
        } else if b == 62 {
            out.extend_from_slice(GREATER_THAN.as_bytes());
        } else if b == 34 {
            out.extend_from_slice(DOUBLE_QUOTE.as_bytes());
        } else if b == 39 {
            out.extend_from_slice(SINGLE_QUOTE.as_bytes());
        } else {
            out.push(b);
            assert(out@ =~= before + seq![b]);
        }
        assert(out@ == before + escaped_byte(b));
        assert(old(out)@ + escaped(bytes@.take(i as int)) + escaped_byte(b) =~= old(out)@ + (
        escaped(bytes@.take(i as int)) + escaped_byte(b)));
        i += 1;
    }
    assert(bytes@.take(bytes.len() as int) =~= bytes@);
}

/// A number written in decimal digits.
pub open spec fn decimal(n: nat) -> Seq<u8>
    decreases n,
{
    if n < 10 {
        seq![(48 + n) as u8]
    } else {
        decimal(n / 10).push((48 + n % 10) as u8)
    }
}

/// Writes a number into a page, in decimal digits.
pub fn write_decimal(out: &mut Vec<u8>, n: usize)
    ensures
        final(out)@ == old(out)@ + decimal(n as nat),
    decreases n,
{
    if n < 10 {
        out.push((48 + n) as u8);
        assert(out@ =~= old(out)@ + decimal(n as nat));
    } else {
        write_decimal(out, n / 10);
        out.push((48 + n % 10) as u8);
        assert(out@ =~= old(out)@ + decimal(n as nat));
    }
}

pub const INDEX_HEAD: &'static str = "<html lang=\"en\">\r\n    <head><title>";

pub const INDEX_BODY: &'static str = "</title></head>\r\n        <body>\r\n            ";

pub const INDEX_NO_ITEMS: &'static str =
    "\r\n                <p>There are no items.</p>\r\n            ";

pub const INDEX_COUNT: &'static str = "\r\n                <p>There are ";

pub const INDEX_LIST: &'static str =
    " items.</p>\r\n                <ul>\r\n                    ";

pub const INDEX_ITEM: &'static str = "\r\n                        <li>";

pub const INDEX_ITEM_END: &'static str = "</li>\r\n                    ";

pub const INDEX_LIST_END: &'static str = "</ul>\r\n            ";

pub const INDEX_IMAGE: &'static str = "\r\n            <img alt=\"Test\" src=\"/static/";

pub const INDEX_TAIL: &'static str = "\" />\r\n        </body>\r\n</html>";

/// The list items of the index page, one for each item.
pub open spec fn index_items(items: Seq<&str>) -> Seq<u8>
    decreases items.len(),
{
    if items.len() == 0 {
        Seq::empty()
    } else {
        index_items(items.drop_last()) + INDEX_ITEM.spec_bytes() + escaped(
            items.last().spec_bytes(),
        ) + INDEX_ITEM_END.spec_bytes()
    }
}

/// What the index page says about its items: that there are none, or how
/// many there are and which.
pub open spec fn index_listing(items: Seq<&str>) -> Seq<u8> {
    if items.len() == 0 {
        INDEX_NO_ITEMS.spec_bytes()
    } else {
        INDEX_COUNT.spec_bytes() + decimal(items.len()) + INDEX_LIST.spec_bytes() + index_items(
            items,
        ) + INDEX_LIST_END.spec_bytes()
    }
}

/// The index page: a title, the items, and an image.
pub open spec fn index_page(name: &str, items: Seq<&str>, image_name: &str) -> Seq<u8> {
    INDEX_HEAD.spec_bytes() + escaped(name.spec_bytes()) + INDEX_BODY.spec_bytes() + index_listing(
        items,
    ) + INDEX_IMAGE.spec_bytes() + escaped(image_name.spec_bytes()) + INDEX_TAIL.spec_bytes()
}

fn write_index_items(out: &mut Vec<u8>, items: &[&str])
    ensures
        final(out)@ == old(out)@ + index_items(items@),
{
    let mut i: usize = 0;
    assert(items@.take(0) =~= Seq::<&str>::empty());
    assert(out@ + Seq::<u8>::empty() =~= out@);
    while i < items.len()
        invariant
            i <= items.len(),
            out@ == old(out)@ + index_items(items@.take(i as int)),
        decreases items.len() - i,
    {
        let ghost before = out@;
        proof {
            assert(items@.take(i + 1).drop_last() =~= items@.take(i as int));
            assert(items@.take(i + 1).last() == items@[i as int]);
        }
        out.extend_from_slice(INDEX_ITEM.as_bytes());
        write_escaped(out, items[i]);
        out.extend_from_slice(INDEX_ITEM_END.as_bytes());
        assert(out@ =~= old(out)@ + index_items(items@.take(i + 1)));
        i += 1;
    }
    assert(items@.take(items.len() as int) =~= items@);
}

/// Writes the index page: `name` is its title, `items` are listed, and
/// `image` is the static file that it shows.
pub fn index_html(out: &mut Vec<u8>, name: &str, items: &[&str], image: &StaticFile)
    ensures
        final(out)@ == old(out)@ + index_page(name, items@, image.name),
{
    out.extend_from_slice(INDEX_HEAD.as_bytes());
    write_escaped(out, name);
    out.extend_from_slice(INDEX_BODY.as_bytes());
    if items.len() == 0 {
        out.extend_from_slice(INDEX_NO_ITEMS.as_bytes());
    } else {
        out.extend_from_slice(INDEX_COUNT.as_bytes());
        write_decimal(out, items.len());
        out.extend_from_slice(INDEX_LIST.as_bytes());
        write_index_items(out, items);
        out.extend_from_slice(INDEX_LIST_END.as_bytes());
    }
    out.extend_from_slice(INDEX_IMAGE.as_bytes());
    write_escaped(out, image.name);
    out.extend_from_slice(INDEX_TAIL.as_bytes());
    assert(out@ =~= old(out)@ + index_page(name, items@, image.name));
}

pub const EDIT_HEAD: &'static str =
    "<html lang=\"en\">\r\n    <head>\r\n        <title>Subtitle Editor</title>\r\n        <meta charset=\"utf-8\" />\r\n        <link rel=\"stylesheet\" href=\"https://cdnjs.cloudflare.com/ajax/libs/normalize/8.0.1/normalize.min.css\" />\r\n    </head>\r\n    <body>\r\n        <div id=\"root\"></div>\r\n        <script src=\"https://www.youtube.com/iframe_api\" async></script>\r\n        <script>\r\n            window.VIDEO_ID = \"";

pub const EDIT_LANGUAGE: &'static str = "\";\r\n            window.SUBTITLE_LANG = \"";

pub const EDIT_SCRIPTS: &'static str = "\";\r\n        </script>\r\n        ";

pub const EDIT_DEVELOPMENT: &'static str =
    "\r\n            <script type=\"module\" src=\"http://localhost:8080/_dist_/index.js\"></script>\r\n            <script>window.HMR_WEBSOCKET_URL = \"ws://localhost:8080\"</script>\r\n        ";

pub const EDIT_PRODUCTION: &'static str =
    "\r\n            <script type=\"module\" src=\"/js/build/__dist__/index.js\"></script>\r\n        ";

pub const EDIT_TAIL: &'static str = "\r\n    </body>\r\n</html>";

/// The editor page for the track of a video in a language. In development
/// it loads its script from the development server.
pub open spec fn edit_page(video_id: &str, lang: &str, development: bool) -> Seq<u8> {
    EDIT_HEAD.spec_bytes() + escaped(video_id.spec_bytes()) + EDIT_LANGUAGE.spec_bytes() + escaped(
        lang.spec_bytes(),
    ) + EDIT_SCRIPTS.spec_bytes() + (if development {
        EDIT_DEVELOPMENT.spec_bytes()
    } else {
        EDIT_PRODUCTION.spec_bytes()
    }) + EDIT_TAIL.spec_bytes()
}

/// Writes the editor page.
pub fn edit_html(out: &mut Vec<u8>, video_id: &str, lang: &str, development: bool)
    ensures
        final(out)@ == old(out)@ + edit_page(video_id, lang, development),
{
    out.extend_from_slice(EDIT_HEAD.as_bytes());
    write_escaped(out, video_id);
    out.extend_from_slice(EDIT_LANGUAGE.as_bytes());
    write_escaped(out, lang);
    out.extend_from_slice(EDIT_SCRIPTS.as_bytes());
    if development {
        out.extend_from_slice(EDIT_DEVELOPMENT.as_bytes());
    } else {
        out.extend_from_slice(EDIT_PRODUCTION.as_bytes());
    }
    out.extend_from_slice(EDIT_TAIL.as_bytes());
    assert(out@ =~= old(out)@ + edit_page(video_id, lang, development));
}

pub const PROFILE_HEAD: &'static str = "<html lang=\"en\">\r\n    <body>\r\n        <p>";

pub const PROFILE_TAIL: &'static str = "</p>\r\n    </body>\r\n</html>";

/// The profile page of a user: the user's name.
pub open spec fn profile_page(username: &str) -> Seq<u8> {
    PROFILE_HEAD.spec_bytes() + escaped(username.spec_bytes()) + PROFILE_TAIL.spec_bytes()
}

/// Writes the profile page of a user.
pub fn profile_html(out: &mut Vec<u8>, username: &str)
    ensures
        final(out)@ == old(out)@ + profile_page(username),
{
    out.extend_from_slice(PROFILE_HEAD.as_bytes());
    write_escaped(out, username);
    out.extend_from_slice(PROFILE_TAIL.as_bytes());
    assert(out@ =~= old(out)@ + profile_page(username));
}

} // verus!
