//! The page that carries the tags.

use vstd::prelude::*;
use vstd::string::*;

use super::{OgTags, TagsModel};
use crate::text;

verus! {

/// What stands for a character in HTML.
pub open spec fn escaped_char(c: char) -> Seq<char> {
    if c == '&' {
        "&amp;"@
    } else if c == '"' {
        "&quot;"@
    } else if c == '<' {
        "&lt;"@
    } else if c == '>' {
        "&gt;"@
    } else {
        seq![c]
    }
}

/// What stands for a text in HTML.
pub open spec fn escaped(s: Seq<char>) -> Seq<char>
    decreases s.len(),
{
    if s.len() == 0 {
        Seq::empty()
    } else {
        escaped(s.drop_last()) + escaped_char(s.last())
    }
}

/// What stands for `s` in HTML.
pub fn html_escape(s: &str) -> (r: String)
    ensures
        r@ == escaped(s@),
{
    let chars = text::chars_of(s);
    let mut r = String::new();
    let mut i: usize = 0;
    assert(chars@.take(0) =~= Seq::empty());
    while i < chars.len()
        invariant
            i <= chars@.len(),
            chars@ == s@,
            r@ == escaped(chars@.take(i as int)),
        decreases chars@.len() - i,
    {
        assert(chars@.take(i + 1).drop_last() =~= chars@.take(i as int));
        let c = chars[i];
        if c == '&' {
            r = r.concat("&amp;");
        } else if c == '"' {
            r = r.concat("&quot;");
        } else if c == '<' {
            r = r.concat("&lt;");
        } else if c == '>' {
            r = r.concat("&gt;");
        } else {
            let ghost before = r@;
            r.push(c);
            assert(r@ =~= before + seq![c]);
        }
        i += 1;
    }
    assert(chars@.take(i as int) =~= chars@);
    r
}

/// No quotation mark and no angle bracket is left in an escaped text, so it can
/// end neither an attribute's value nor a tag.
pub proof fn escaped_is_safe(s: Seq<char>)
    ensures
        !escaped(s).contains('"'),
        !escaped(s).contains('<'),
        !escaped(s).contains('>'),
    decreases s.len(),
{
    if s.len() > 0 {
        escaped_is_safe(s.drop_last());
        let a = escaped(s.drop_last());
        let b = escaped_char(s.last());
        reveal_strlit("&amp;");
        reveal_strlit("&quot;");
        reveal_strlit("&lt;");
        reveal_strlit("&gt;");
        assert forall|i: int| 0 <= i < (a + b).len() implies (a + b)[i] != '"' && (a + b)[i] != '<'
            && (a + b)[i] != '>' by {
            if i < a.len() {
                assert(a.contains((a + b)[i]));
            }
        }
    }
}

/// Escaping leaves a text as it is that holds none of the characters that stand
/// for themselves nowhere in HTML.
pub proof fn escaped_plain(s: Seq<char>)
    requires
        !s.contains('&'),
        !s.contains('"'),
        !s.contains('<'),
        !s.contains('>'),
    ensures
        escaped(s) == s,
    decreases s.len(),
{
    if s.len() > 0 {
        let init = s.drop_last();
        assert forall|i: int| 0 <= i < init.len() implies s.contains(init[i]) by {
            assert(s[i] == init[i]);
        }
        assert(s.contains(s[s.len() - 1]));
        escaped_plain(init);
        assert(escaped(s) =~= s);
    } else {
        assert(s =~= Seq::empty());
    }
}

/// What stands for two texts one after the other is what stands for each of them.
pub proof fn escaped_concat(a: Seq<char>, b: Seq<char>)
    ensures
        escaped(a + b) == escaped(a) + escaped(b),
    decreases b.len(),
{
    if b.len() == 0 {
        assert(a + b =~= a);
        assert(escaped(a) + escaped(b) =~= escaped(a));
    } else {
        let init = b.drop_last();
        assert((a + b).drop_last() =~= a + init);
        escaped_concat(a, init);
        assert((escaped(a) + escaped(init)) + escaped_char(b.last()) =~= escaped(a) + (escaped(
            init,
        ) + escaped_char(b.last())));
    }
}

/// A text in which the four characters were put back in turn.
pub open spec fn unescaped(s: Seq<char>) -> Seq<char> {
    let s = text::replace(s, "&gt;"@, seq!['>']);
    let s = text::replace(s, "&lt;"@, seq!['<']);
    let s = text::replace(s, "&quot;"@, seq!['"']);
    text::replace(s, "&amp;"@, seq!['&'])
}

/// The characters that something else stands for in HTML, with what that is.
spec fn entities() -> Seq<(char, Seq<char>)> {
    seq![('&', "&amp;"@), ('"', "&quot;"@), ('<', "&lt;"@), ('>', "&gt;"@)]
}

/// What stands for a character where only the first `k` characters are escaped.
spec fn partly_char(c: char, k: int) -> Seq<char> {
    if (c == '&' && k > 0) || (c == '"' && k > 1) || (c == '<' && k > 2) || (c == '>' && k > 3) {
        escaped_char(c)
    } else {
        seq![c]
    }
}

spec fn partly(s: Seq<char>, k: int) -> Seq<char>
    decreases s.len(),
{
    if s.len() == 0 {
        Seq::empty()
    } else {
        partly_char(s[0], k) + partly(s.skip(1), k)
    }
}

proof fn partly_all(s: Seq<char>)
    ensures
        partly(s, 4) == escaped(s),
        partly(s, 0) == s,
    decreases s.len(),
{
    if s.len() > 0 {
        let rest = s.skip(1);
        partly_all(rest);
        let first = seq![s[0]];
        assert(first + rest =~= s);
        escaped_concat(first, rest);
        assert(first.drop_last() =~= Seq::empty());
        reveal_with_fuel(escaped, 2);
        assert(escaped(first) =~= escaped_char(s[0]));
    } else {
        assert(s =~= Seq::empty());
    }
}

/// Putting back the `k`-th of the characters.
proof fn put_back(s: Seq<char>, k: int)
    requires
        1 <= k <= 4,
    ensures
        ({
            let (c, entity) = entities()[k - 1];
            text::replace(partly(s, k), entity, seq![c]) == partly(s, k - 1)
        }),
    decreases s.len(),
{
    let (c, entity) = entities()[k - 1];
    reveal_strlit("&amp;");
    reveal_strlit("&quot;");
    reveal_strlit("&lt;");
    reveal_strlit("&gt;");
    if s.len() > 0 {
        let rest = s.skip(1);
        put_back(rest, k);
        let word = partly_char(s[0], k);
        let tail = partly(rest, k);
        if s[0] == c {
            text::replace_front(tail, entity, seq![c]);
        } else {
            assert forall|i: int| 0 <= i < word.len() implies !entity.is_prefix_of(
                #[trigger] (word + tail).skip(i),
            ) by {
                let left = (word + tail).skip(i);
                if entity.is_prefix_of(left) {
                    assert(left[0] == left.subrange(0, entity.len() as int)[0]);
                    assert(left[1] == left.subrange(0, entity.len() as int)[1]);
                    assert(left[0] == word[i]);
                    assert(i == 0);
                }
            }
            text::replace_behind(word, tail, entity, seq![c]);
        }
    }
}

/// Escaping the `k`-th of the characters.
proof fn put_in(s: Seq<char>, k: int)
    requires
        1 <= k <= 4,
    ensures
        ({
            let (c, entity) = entities()[k - 1];
            text::replace(partly(s, k - 1), seq![c], entity) == partly(s, k)
        }),
    decreases s.len(),
{
    let (c, entity) = entities()[k - 1];
    reveal_strlit("&amp;");
    reveal_strlit("&quot;");
    reveal_strlit("&lt;");
    reveal_strlit("&gt;");
    if s.len() > 0 {
        let rest = s.skip(1);
        put_in(rest, k);
        let word = partly_char(s[0], k - 1);
        let tail = partly(rest, k - 1);
        if s[0] == c {
            text::replace_front(tail, seq![c], entity);
        } else {
            assert forall|i: int| 0 <= i < word.len() implies !seq![c].is_prefix_of(
                #[trigger] (word + tail).skip(i),
            ) by {
                let left = (word + tail).skip(i);
                if seq![c].is_prefix_of(left) {
                    assert(left[0] == left.subrange(0, 1)[0]);
                    assert(left[0] == word[i]);
                }
            }
            text::replace_behind(word, tail, seq![c], entity);
        }
    }
}

/// Escaping replaces the four characters in turn, the ampersand first.
pub proof fn escaped_in_turn(s: Seq<char>)
    ensures
        ({
            let t = text::replace(s, seq!['&'], "&amp;"@);
            let t = text::replace(t, seq!['"'], "&quot;"@);
            let t = text::replace(t, seq!['<'], "&lt;"@);
            text::replace(t, seq!['>'], "&gt;"@) == escaped(s)
        }),
{
    partly_all(s);
    put_in(s, 1);
    put_in(s, 2);
    put_in(s, 3);
    put_in(s, 4);
}

/// Putting back the four characters in turn, the ampersand last, gives a text
/// back as it was before it was escaped.
pub proof fn escaped_can_be_undone(s: Seq<char>)
    ensures
        unescaped(escaped(s)) == s,
{
    partly_all(s);
    put_back(s, 4);
    put_back(s, 3);
    put_back(s, 2);
    put_back(s, 1);
}

/// A text between two others.
pub open spec fn between(before: Seq<char>, text: Seq<char>, after: Seq<char>) -> Seq<char> {
    before + text + after
}

fn around(before: &str, text: &str, after: &str) -> (r: String)
    ensures
        r@ == between(before@, text@, after@),
{
    String::from_str(before).concat(text).concat(after)
}

/// The lines of the page before the title.
pub open spec fn head_lines() -> Seq<Seq<char>> {
    seq![
        "<!DOCTYPE html><html lang=\"en\"><head>"@,
        "<meta charset=\"utf-8\" />"@,
        "<link rel=\"icon\" type=\"image/svg+xml\" href=\"/favicon.svg\" />"@,
        "<link rel=\"icon\" type=\"image/png\" sizes=\"32x32\" href=\"/favicon-32x32.png\" />"@,
        "<link rel=\"icon\" type=\"image/png\" sizes=\"16x16\" href=\"/favicon-16x16.png\" />"@,
        "<link rel=\"apple-touch-icon\" href=\"/apple-touch-icon.png\" />"@,
        "<meta name=\"viewport\" content=\"width=device-width, initial-scale=1.0, viewport-fit=cover\" />"@,
        "<meta name=\"mobile-web-app-capable\" content=\"yes\" />"@,
        "<meta name=\"apple-mobile-web-app-capable\" content=\"yes\" />"@,
        "<meta name=\"apple-mobile-web-app-status-bar-style\" content=\"black-translucent\" />"@,
        "<link rel=\"manifest\" href=\"/manifest.webmanifest\" />"@,
    ]
}

/// The lines of the page that carry the tags.
pub open spec fn tag_lines(
    title: Seq<char>,
    desc: Seq<char>,
    image: Seq<char>,
    url: Seq<char>,
    og_type: Seq<char>,
    site: Seq<char>,
) -> Seq<Seq<char>> {
    let end = "\" />"@;
    seq![
        between("<title>"@ + title, " | "@ + site, "</title>"@),
        between("<meta name=\"description\" content=\""@, desc, end),
        between("<meta property=\"og:title\" content=\""@, title, end),
        between("<meta property=\"og:description\" content=\""@, desc, end),
        between("<meta property=\"og:image\" content=\""@, image, end),
        between("<meta property=\"og:url\" content=\""@, url, end),
        between("<meta property=\"og:type\" content=\""@, og_type, end),
        between("<meta property=\"og:site_name\" content=\""@, site, end),
        "<meta name=\"twitter:card\" content=\"summary_large_image\" />"@,
        between("<meta name=\"twitter:title\" content=\""@, title, end),
        between("<meta name=\"twitter:description\" content=\""@, desc, end),
        between("<meta name=\"twitter:image\" content=\""@, image, end),
    ]
}

/// The lines of the page behind the tags.
pub open spec fn tail_lines(entry_js: Seq<char>, entry_css: Seq<char>) -> Seq<Seq<char>> {
    seq![
        between("<link rel=\"stylesheet\" crossorigin href=\""@, entry_css, "\" />"@),
        "</head><body><div id=\"root\"></div>"@,
        "<script src=\"/config.js\"></script>"@,
        between("<script type=\"module\" crossorigin src=\""@, entry_js, "\"></script>"@),
        "</body></html>"@,
    ]
}

/// The page that carries the tags, each of them escaped.
pub open spec fn page_of(
    og: TagsModel,
    site_name: Seq<char>,
    entry_js: Seq<char>,
    entry_css: Seq<char>,
) -> Seq<char> {
    text::join(
        head_lines() + tag_lines(
            escaped(og.title),
            escaped(og.description),
            escaped(og.image),
            escaped(og.url),
            escaped(og.og_type),
            escaped(site_name),
        ) + tail_lines(entry_js, entry_css),
        "\n"@,
    )
}

fn first_lines() -> (r: Vec<String>)
    ensures
        text::texts(r@) == head_lines(),
{
    let r: Vec<String> = vec![
        "<!DOCTYPE html><html lang=\"en\"><head>".to_string(),
        "<meta charset=\"utf-8\" />".to_string(),
        "<link rel=\"icon\" type=\"image/svg+xml\" href=\"/favicon.svg\" />".to_string(),
        "<link rel=\"icon\" type=\"image/png\" sizes=\"32x32\" href=\"/favicon-32x32.png\" />".to_string(),
        "<link rel=\"icon\" type=\"image/png\" sizes=\"16x16\" href=\"/favicon-16x16.png\" />".to_string(),
        "<link rel=\"apple-touch-icon\" href=\"/apple-touch-icon.png\" />".to_string(),
        "<meta name=\"viewport\" content=\"width=device-width, initial-scale=1.0, viewport-fit=cover\" />".to_string(),
        "<meta name=\"mobile-web-app-capable\" content=\"yes\" />".to_string(),
        "<meta name=\"apple-mobile-web-app-capable\" content=\"yes\" />".to_string(),
        "<meta name=\"apple-mobile-web-app-status-bar-style\" content=\"black-translucent\" />".to_string(),
        "<link rel=\"manifest\" href=\"/manifest.webmanifest\" />".to_string(),
    ];
    assert(text::texts(r@) =~= head_lines());
    r
}

/// The page that carries the tags.
pub fn render_html(og: &OgTags, site_name: &str, entry_js: &str, entry_css: &str) -> (r: String)
    ensures
        r@ == page_of(og.deep_view(), site_name@, entry_js@, entry_css@),
{
    let title = html_escape(og.title.as_str());
    let desc = html_escape(og.description.as_str());
    let image = html_escape(og.image.as_str());
    let url = html_escape(og.url.as_str());
    let og_type = html_escape(og.og_type.as_str());
    let site = html_escape(site_name);
    let (t, d, i) = (title.as_str(), desc.as_str(), image.as_str());
    let end = "\" />";
    let heading = String::from_str("<title>").concat(t);
    let separated = String::from_str(" | ").concat(site.as_str());
    let mut tags: Vec<String> = vec![
        around(heading.as_str(), separated.as_str(), "</title>"),
        around("<meta name=\"description\" content=\"", d, end),
        around("<meta property=\"og:title\" content=\"", t, end),
        around("<meta property=\"og:description\" content=\"", d, end),
        around("<meta property=\"og:image\" content=\"", i, end),
        around("<meta property=\"og:url\" content=\"", url.as_str(), end),
        around("<meta property=\"og:type\" content=\"", og_type.as_str(), end),
        around("<meta property=\"og:site_name\" content=\"", site.as_str(), end),
        "<meta name=\"twitter:card\" content=\"summary_large_image\" />".to_string(),
        around("<meta name=\"twitter:title\" content=\"", t, end),
        around("<meta name=\"twitter:description\" content=\"", d, end),
        around("<meta name=\"twitter:image\" content=\"", i, end),
    ];
    assert(text::texts(tags@) =~= tag_lines(title@, desc@, image@, url@, og_type@, site@));
    let mut tail: Vec<String> = vec![
        around("<link rel=\"stylesheet\" crossorigin href=\"", entry_css, "\" />"),
        "</head><body><div id=\"root\"></div>".to_string(),
        "<script src=\"/config.js\"></script>".to_string(),
        around("<script type=\"module\" crossorigin src=\"", entry_js, "\"></script>"),
        "</body></html>".to_string(),
    ];
    assert(text::texts(tail@) =~= tail_lines(entry_js@, entry_css@));
    let ghost middle = text::texts(tags@);
    let ghost last = text::texts(tail@);
    let mut lines = first_lines();
    lines.append(&mut tags);
    lines.append(&mut tail);
    assert(text::texts(lines@) =~= head_lines() + middle + last);
    text::join_with(&lines, "\n")
}

} // verus!
