//! What a page says, tag by tag.

use vstd::prelude::*;

use super::TagsModel;
use crate::og::html;
use crate::text;

verus! {

/// What stands for a text in HTML is what stands for its characters, one after
/// the other.
pub proof fn escaped_one_by_one(s: Seq<char>, c: char)
    ensures
        html::escaped(Seq::empty()) == Seq::<char>::empty(),
        html::escaped(s.push(c)) == html::escaped(s) + (if c == '&' {
            "&amp;"@
        } else if c == '"' {
            "&quot;"@
        } else if c == '<' {
            "&lt;"@
        } else if c == '>' {
            "&gt;"@
        } else {
            seq![c]
        }),
{
    assert(s.push(c).drop_last() =~= s);
}

/// The lines of a page.
pub open spec fn page_lines(
    og: TagsModel,
    site_name: Seq<char>,
    entry_js: Seq<char>,
    entry_css: Seq<char>,
) -> Seq<Seq<char>> {
    seq![
        "<!DOCTYPE html><html lang=\"en\"><head>"@,
        "<meta charset=\"utf-8\" />"@,
        "<link rel=\"icon\" type=\"image/svg+xml\" href=\"/favicon.svg\" />"@,
        "<link rel=\"icon\" type=\"image/png\" sizes=\"32x32\" href=\"/favicon-32x32.png\" />"@,
        "<link rel=\"icon\" type=\"image/png\" sizes=\"16x16\" href=\"/favicon-16x16.png\" />"@,
        "<link rel=\"apple-touch-icon\" href=\"/apple-touch-icon.png\" />"@,
        "<meta name=\"viewport\" content=\"width=device-width, initial-scale=1.0, viewport-fit=cover\" />"@,
        "<meta name=\"mobile-web-app-capable\" content=\"yes\" />"@,
        "<meta name=\"apple-mobile-web-app-capable\" content=\"yes\" />"@,
        "<meta name=\"apple-mobile-web-app-status-bar-style\" content=\"black-translucent\" />"@,
        "<link rel=\"manifest\" href=\"/manifest.webmanifest\" />"@,
        ("<title>"@ + html::escaped(og.title)) + (" | "@ + html::escaped(site_name)) + "</title>"@,
        "<meta name=\"description\" content=\""@ + html::escaped(og.description) + "\" />"@,
        "<meta property=\"og:title\" content=\""@ + html::escaped(og.title) + "\" />"@,
        "<meta property=\"og:description\" content=\""@ + html::escaped(og.description) + "\" />"@,
        "<meta property=\"og:image\" content=\""@ + html::escaped(og.image) + "\" />"@,
        "<meta property=\"og:url\" content=\""@ + html::escaped(og.url) + "\" />"@,
        "<meta property=\"og:type\" content=\""@ + html::escaped(og.og_type) + "\" />"@,
        "<meta property=\"og:site_name\" content=\""@ + html::escaped(site_name) + "\" />"@,
        "<meta name=\"twitter:card\" content=\"summary_large_image\" />"@,
        "<meta name=\"twitter:title\" content=\""@ + html::escaped(og.title) + "\" />"@,
        "<meta name=\"twitter:description\" content=\""@ + html::escaped(og.description) + "\" />"@,
        "<meta name=\"twitter:image\" content=\""@ + html::escaped(og.image) + "\" />"@,
        "<link rel=\"stylesheet\" crossorigin href=\""@ + entry_css + "\" />"@,
        "</head><body><div id=\"root\"></div>"@,
        "<script src=\"/config.js\"></script>"@,
        "<script type=\"module\" crossorigin src=\""@ + entry_js + "\"></script>"@,
        "</body></html>"@,
    ]
}

/// A page is made of these lines.
pub proof fn page_has_lines(
    og: TagsModel,
    site_name: Seq<char>,
    entry_js: Seq<char>,
    entry_css: Seq<char>,
)
    ensures
        html::page_of(og, site_name, entry_js, entry_css) == text::join(
            page_lines(og, site_name, entry_js, entry_css),
            "\n"@,
        ),
{
    assert(html::head_lines() + html::tag_lines(
        html::escaped(og.title),
        html::escaped(og.description),
        html::escaped(og.image),
        html::escaped(og.url),
        html::escaped(og.og_type),
        html::escaped(site_name),
    ) + html::tail_lines(entry_js, entry_css) =~= page_lines(
        og,
        site_name,
        entry_js,
        entry_css,
    ));
}

/// Whether one line begins in this way, and none but it, and it says what stands
/// for the content in HTML.
pub open spec fn stands_once(
    lines: Seq<Seq<char>>,
    start: Seq<char>,
    content: Seq<char>,
) -> bool {
    exists|at: int|
        0 <= at < lines.len() && #[trigger] lines[at] == start + html::escaped(content)
            + "\" />"@ && forall|i: int|
            0 <= i < lines.len() && start.is_prefix_of(#[trigger] lines[i]) ==> i == at
}

/// What tells a line with a tag from the others: some of its characters.
spec fn mark(line: Seq<char>) -> (char, char, char, char, char) {
    if line[1] == 'm' {
        ('m', line[6], line[12], line[19], line[20])
    } else {
        (line[1], ' ', ' ', ' ', ' ')
    }
}

/// Whether a line is long enough for its mark.
spec fn is_marked(line: Seq<char>) -> bool {
    line.len() > 1 && (line[1] == 'm' ==> line.len() > 20)
}

/// Whether the lines are marked as those of a page.
spec fn are_marked(lines: Seq<Seq<char>>) -> bool {
    &&& lines.len() == 28
    &&& forall|i: int| 0 <= i < lines.len() ==> is_marked(#[trigger] lines[i])
    &&& mark(lines[0]) == ('!', ' ', ' ', ' ', ' ')
    &&& mark(lines[1]) == ('m', 'c', 't', '8', '"')
    &&& mark(lines[2]) == ('l', ' ', ' ', ' ', ' ')
    &&& mark(lines[3]) == ('l', ' ', ' ', ' ', ' ')
    &&& mark(lines[4]) == ('l', ' ', ' ', ' ', ' ')
    &&& mark(lines[5]) == ('l', ' ', ' ', ' ', ' ')
    &&& mark(lines[6]) == ('m', 'n', 'v', 't', '"')
    &&& mark(lines[7]) == ('m', 'n', 'm', 'w', 'e')
    &&& mark(lines[8]) == ('m', 'n', 'a', 'o', 'b')
    &&& mark(lines[9]) == ('m', 'n', 'a', 'o', 'b')
    &&& mark(lines[10]) == ('l', ' ', ' ', ' ', ' ')
    &&& mark(lines[11]) == ('t', ' ', ' ', ' ', ' ')
    &&& mark(lines[12]) == ('m', 'n', 'd', 't', 'i')
    &&& mark(lines[13]) == ('m', 'p', 't', 't', 'i')
    &&& mark(lines[14]) == ('m', 'p', 't', 'd', 'e')
    &&& mark(lines[15]) == ('m', 'p', 't', 'i', 'm')
    &&& mark(lines[16]) == ('m', 'p', 't', 'u', 'r')
    &&& mark(lines[17]) == ('m', 'p', 't', 't', 'y')
    &&& mark(lines[18]) == ('m', 'p', 't', 's', 'i')
    &&& mark(lines[19]) == ('m', 'n', 't', ':', 'c')
    &&& mark(lines[20]) == ('m', 'n', 't', ':', 't')
    &&& mark(lines[21]) == ('m', 'n', 't', ':', 'd')
    &&& mark(lines[22]) == ('m', 'n', 't', ':', 'i')
    &&& mark(lines[23]) == ('l', ' ', ' ', ' ', ' ')
    &&& mark(lines[24]) == ('/', ' ', ' ', ' ', ' ')
    &&& mark(lines[25]) == ('s', ' ', ' ', ' ', ' ')
    &&& mark(lines[26]) == ('s', ' ', ' ', ' ', ' ')
    &&& mark(lines[27]) == ('/', ' ', ' ', ' ', ' ')
}

proof fn page_is_marked(
    og: TagsModel,
    site_name: Seq<char>,
    entry_js: Seq<char>,
    entry_css: Seq<char>,
)
    ensures
        are_marked(page_lines(og, site_name, entry_js, entry_css)),
{
    reveal_strlit("<!DOCTYPE html><html lang=\"en\"><head>");
    reveal_strlit("<meta charset=\"utf-8\" />");
    reveal_strlit("<link rel=\"icon\" type=\"image/svg+xml\" href=\"/favicon.svg\" />");
    reveal_strlit("<link rel=\"icon\" type=\"image/png\" sizes=\"32x32\" href=\"/favicon-32x32.png\" />");
    reveal_strlit("<link rel=\"icon\" type=\"image/png\" sizes=\"16x16\" href=\"/favicon-16x16.png\" />");
    reveal_strlit("<link rel=\"apple-touch-icon\" href=\"/apple-touch-icon.png\" />");
    reveal_strlit("<meta name=\"viewport\" content=\"width=device-width, initial-scale=1.0, viewport-fit=cover\" />");
    reveal_strlit("<meta name=\"mobile-web-app-capable\" content=\"yes\" />");
    reveal_strlit("<meta name=\"apple-mobile-web-app-capable\" content=\"yes\" />");
    reveal_strlit("<meta name=\"apple-mobile-web-app-status-bar-style\" content=\"black-translucent\" />");
    reveal_strlit("<link rel=\"manifest\" href=\"/manifest.webmanifest\" />");
    reveal_strlit("<title>");
    reveal_strlit("<meta name=\"description\" content=\"");
    reveal_strlit("<meta property=\"og:title\" content=\"");
    reveal_strlit("<meta property=\"og:description\" content=\"");
    reveal_strlit("<meta property=\"og:image\" content=\"");
    reveal_strlit("<meta property=\"og:url\" content=\"");
    reveal_strlit("<meta property=\"og:type\" content=\"");
    reveal_strlit("<meta property=\"og:site_name\" content=\"");
    reveal_strlit("<meta name=\"twitter:card\" content=\"summary_large_image\" />");
    reveal_strlit("<meta name=\"twitter:title\" content=\"");
    reveal_strlit("<meta name=\"twitter:description\" content=\"");
    reveal_strlit("<meta name=\"twitter:image\" content=\"");
    reveal_strlit("<link rel=\"stylesheet\" crossorigin href=\"");
    reveal_strlit("</head><body><div id=\"root\"></div>");
    reveal_strlit("<script src=\"/config.js\"></script>");
    reveal_strlit("<script type=\"module\" crossorigin src=\"");
    reveal_strlit("</body></html>");
}

proof fn marks_tell(lines: Seq<Seq<char>>, at: int, i: int)
    requires
        are_marked(lines),
        12 <= at <= 22,
        0 <= i < lines.len(),
        i != at,
    ensures
        mark(lines[i]) != mark(lines[at]),
{
}

proof fn one_begins_so(lines: Seq<Seq<char>>, start: Seq<char>, content: Seq<char>, at: int)
    requires
        are_marked(lines),
        12 <= at <= 22,
        start.len() > 20,
        lines[at] == start + html::escaped(content) + "\" />"@,
    ensures
        stands_once(lines, start, content),
{
    assert forall|i: int| 0 <= i < lines.len() && start.is_prefix_of(
        #[trigger] lines[i],
    ) implies i == at by {
        let line = lines[i];
        assert forall|d: int| 0 <= d < start.len() implies lines[at][d] == #[trigger] line[d] by {
            assert(start[d] == line.subrange(0, start.len() as int)[d]);
        }
        if i != at {
            marks_tell(lines, at, i);
        }
    }
}

/// Every property stands on one line of a page, and on no other: it says what the
/// tag of its name says, and what stands there can be turned back into that.
pub proof fn every_property_stands_once(
    og: TagsModel,
    site_name: Seq<char>,
    entry_js: Seq<char>,
    entry_css: Seq<char>,
)
    ensures
        exists|lines: Seq<Seq<char>>| #[trigger]
            text::join(lines, "\n"@) == html::page_of(og, site_name, entry_js, entry_css) && {
                &&& stands_once(lines, "<meta name=\"description\" content=\""@, og.description)
                &&& stands_once(lines, "<meta property=\"og:title\" content=\""@, og.title)
                &&& stands_once(lines, "<meta property=\"og:description\" content=\""@, og.description)
                &&& stands_once(lines, "<meta property=\"og:image\" content=\""@, og.image)
                &&& stands_once(lines, "<meta property=\"og:url\" content=\""@, og.url)
                &&& stands_once(lines, "<meta property=\"og:type\" content=\""@, og.og_type)
                &&& stands_once(lines, "<meta property=\"og:site_name\" content=\""@, site_name)
                &&& stands_once(lines, "<meta name=\"twitter:title\" content=\""@, og.title)
                &&& stands_once(lines, "<meta name=\"twitter:description\" content=\""@, og.description)
                &&& stands_once(lines, "<meta name=\"twitter:image\" content=\""@, og.image)
            },
        html::unescaped(html::escaped(og.title)) == og.title,
        html::unescaped(html::escaped(og.description)) == og.description,
        html::unescaped(html::escaped(og.image)) == og.image,
        html::unescaped(html::escaped(og.url)) == og.url,
        html::unescaped(html::escaped(og.og_type)) == og.og_type,
        html::unescaped(html::escaped(site_name)) == site_name,
{
    let lines = page_lines(og, site_name, entry_js, entry_css);
    page_has_lines(og, site_name, entry_js, entry_css);
    page_is_marked(og, site_name, entry_js, entry_css);
    assert(stands_once(lines, "<meta name=\"description\" content=\""@, og.description)) by {
        reveal_strlit("<meta name=\"description\" content=\"");
        one_begins_so(lines, "<meta name=\"description\" content=\""@, og.description, 12);
    }
    assert(stands_once(lines, "<meta property=\"og:title\" content=\""@, og.title)) by {
        reveal_strlit("<meta property=\"og:title\" content=\"");
        one_begins_so(lines, "<meta property=\"og:title\" content=\""@, og.title, 13);
    }
    assert(stands_once(lines, "<meta property=\"og:description\" content=\""@, og.description)) by {
        reveal_strlit("<meta property=\"og:description\" content=\"");
        one_begins_so(lines, "<meta property=\"og:description\" content=\""@, og.description, 14);
    }
    assert(stands_once(lines, "<meta property=\"og:image\" content=\""@, og.image)) by {
        reveal_strlit("<meta property=\"og:image\" content=\"");
        one_begins_so(lines, "<meta property=\"og:image\" content=\""@, og.image, 15);
    }
    assert(stands_once(lines, "<meta property=\"og:url\" content=\""@, og.url)) by {
        reveal_strlit("<meta property=\"og:url\" content=\"");
        one_begins_so(lines, "<meta property=\"og:url\" content=\""@, og.url, 16);
    }
    assert(stands_once(lines, "<meta property=\"og:type\" content=\""@, og.og_type)) by {
        reveal_strlit("<meta property=\"og:type\" content=\"");
        one_begins_so(lines, "<meta property=\"og:type\" content=\""@, og.og_type, 17);
    }
    assert(stands_once(lines, "<meta property=\"og:site_name\" content=\""@, site_name)) by {
        reveal_strlit("<meta property=\"og:site_name\" content=\"");
        one_begins_so(lines, "<meta property=\"og:site_name\" content=\""@, site_name, 18);
    }
    assert(stands_once(lines, "<meta name=\"twitter:title\" content=\""@, og.title)) by {
        reveal_strlit("<meta name=\"twitter:title\" content=\"");
        one_begins_so(lines, "<meta name=\"twitter:title\" content=\""@, og.title, 20);
    }
    assert(stands_once(lines, "<meta name=\"twitter:description\" content=\""@, og.description)) by {
        reveal_strlit("<meta name=\"twitter:description\" content=\"");
        one_begins_so(lines, "<meta name=\"twitter:description\" content=\""@, og.description, 21);
    }
    assert(stands_once(lines, "<meta name=\"twitter:image\" content=\""@, og.image)) by {
        reveal_strlit("<meta name=\"twitter:image\" content=\"");
        one_begins_so(lines, "<meta name=\"twitter:image\" content=\""@, og.image, 22);
    }
    html::escaped_can_be_undone(og.title);
    html::escaped_can_be_undone(og.description);
    html::escaped_can_be_undone(og.image);
    html::escaped_can_be_undone(og.url);
    html::escaped_can_be_undone(og.og_type);
    html::escaped_can_be_undone(site_name);
    assert(text::join(lines, "\n"@) == html::page_of(og, site_name, entry_js, entry_css));
}

} // verus!
