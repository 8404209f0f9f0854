//! What a page is made of: its route, its row and its tags.

use vstd::prelude::*;

use super::{
    AppConfig, OgConfig, OgQuery, OgRow, OgTags, QueryModel, RouteConfig, Source, TagsModel,
    DEFAULT_CSS, DEFAULT_JS,
};
use crate::og;
use crate::og::route;
use crate::og::slug;
use crate::og::template;
use crate::text;

verus! {

// ---------------------------------------------------------------------------
// Routes
// ---------------------------------------------------------------------------

/// The pieces of a path are what its slashes stand between.
pub proof fn pieces_are_between_slashes(parts: Seq<Seq<char>>)
    requires
        parts.len() > 0,
        forall|i: int| 0 <= i < parts.len() ==> !(#[trigger] parts[i]).contains('/'),
        parts.len() == 1 || parts[0].len() > 0 && parts.last().len() > 0,
    ensures
        route::pieces(text::join(parts, seq!['/'])) == parts,
        route::pieces(seq!['/'] + text::join(parts, seq!['/'])) == parts,
{
    let path = text::join(parts, seq!['/']);
    text::join_split(parts, '/');
    no_slash_at_ends(parts);
    text::trim_stays(path, '/');
    text::trim_ends(path, '/', 1, 0);
    assert(text::repeated('/', 1) + path + text::repeated('/', 0) =~= seq!['/'] + path);
}

proof fn no_slash_at_ends(parts: Seq<Seq<char>>)
    requires
        parts.len() > 0,
        forall|i: int| 0 <= i < parts.len() ==> !(#[trigger] parts[i]).contains('/'),
        parts.len() == 1 || parts[0].len() > 0 && parts.last().len() > 0,
    ensures
        ({
            let path = text::join(parts, seq!['/']);
            path.len() == 0 || path[0] != '/' && path.last() != '/'
        }),
{
    let path = text::join(parts, seq!['/']);
    let last = parts.last();
    assert(!parts[parts.len() - 1].contains('/'));
    if parts[0].len() > 0 {
        first_char(parts);
    }
    if path.len() > 0 {
        if parts.len() == 1 {
            assert(path.contains(path[0]) && path.contains(path.last()));
        } else {
            assert(path.last() == last.last());
            assert(last.contains(last.last()));
            assert(parts[0].contains(parts[0][0]));
        }
    }
}

proof fn first_char(parts: Seq<Seq<char>>)
    requires
        parts.len() > 0,
        parts[0].len() > 0,
    ensures
        text::join(parts, seq!['/']).len() > 0,
        text::join(parts, seq!['/'])[0] == parts[0][0],
    decreases parts.len(),
{
    if parts.len() > 1 {
        let init = parts.drop_last();
        assert(init[0] == parts[0]);
        first_char(init);
    }
}

/// A path fits a pattern if and only if it has as many pieces, and each is that
/// of the pattern or stands for a parameter, which a colon begins; the parameters
/// are what stands in their places, in order.
pub proof fn paths_fit_piece_by_piece(
    pattern: Seq<Seq<char>>,
    path: Seq<Seq<char>>,
    p: Seq<char>,
    a: Seq<char>,
)
    requires
        pattern.len() == path.len(),
    ensures
        route::fits(Seq::empty(), Seq::empty()),
        !route::fits(pattern.push(p), path) && !route::fits(pattern, path.push(a)),
        route::fits(pattern.push(p), path.push(a)) <==> route::fits(pattern, path) && ((p.len() > 0
            && p[0] == ':') || p == a),
        route::params_of(Seq::empty(), Seq::empty(), 0) == Seq::<Seq<char>>::empty(),
        route::params_of(pattern.push(p), path.push(a), path.len() as int + 1) == if p.len() > 0
            && p[0] == ':' {
            route::params_of(pattern, path, path.len() as int).push(a)
        } else {
            route::params_of(pattern, path, path.len() as int)
        },
{
    reveal_strlit(":");
    let pp = pattern.push(p);
    let aa = path.push(a);
    let n = path.len() as int;
    if p.len() > 0 && p[0] == ':' {
        assert(":"@ =~= p.subrange(0, 1));
    } else if route::is_param(p) {
        assert(":"@[0] == p.subrange(0, 1)[0]);
    }
    assert(pp[n] == p && aa[n] == a);
    if route::fits(pp, aa) {
        assert forall|i: int| 0 <= i < pattern.len() implies route::is_param(
            #[trigger] pattern[i],
        ) || pattern[i] == path[i] by {
            assert(pp[i] == pattern[i] && aa[i] == path[i]);
        }
    }
    if route::fits(pattern, path) && (route::is_param(p) || p == a) {
        assert forall|i: int| 0 <= i < pp.len() implies route::is_param(#[trigger] pp[i]) || pp[i]
            == aa[i] by {
            if i < n {
                assert(pp[i] == pattern[i] && aa[i] == path[i]);
            }
        }
    }
    same_params(pattern, path, pp, aa, n);
}

proof fn same_params(
    pattern: Seq<Seq<char>>,
    path: Seq<Seq<char>>,
    pp: Seq<Seq<char>>,
    aa: Seq<Seq<char>>,
    n: int,
)
    requires
        0 <= n <= pattern.len() <= pp.len(),
        pattern.len() == path.len() <= aa.len(),
        forall|i: int| 0 <= i < pattern.len() ==> #[trigger] pp[i] == pattern[i],
        forall|i: int| 0 <= i < path.len() ==> #[trigger] aa[i] == path[i],
    ensures
        route::params_of(pp, aa, n) == route::params_of(pattern, path, n),
    decreases n,
{
    if n > 0 {
        same_params(pattern, path, pp, aa, n - 1);
    }
}

/// The route of a path is the first one whose pattern it fits, and its parameters
/// are those of that pattern.
pub proof fn the_first_route_is_taken(path: Seq<char>, routes: Seq<RouteConfig>, i: int)
    requires
        0 <= i <= routes.len(),
        forall|j: int|
            0 <= j < i ==> !route::fits(
                route::pieces((#[trigger] routes[j]).pattern@),
                route::pieces(path),
            ),
        i < routes.len() ==> route::fits(route::pieces(routes[i].pattern@), route::pieces(path)),
    ensures
        route::first_route(path, routes, 0) == i,
        route::is_routed(path, routes) <==> i < routes.len(),
        i < routes.len() ==> route::route_params(path, routes[i]) == route::params_of(
            route::pieces(routes[i].pattern@),
            route::pieces(path),
            route::pieces(path).len() as int,
        ),
{
    taken_from(path, routes, 0, i);
}

proof fn taken_from(path: Seq<char>, routes: Seq<RouteConfig>, from: int, i: int)
    requires
        0 <= from <= i <= routes.len(),
        forall|j: int| from <= j < i ==> !route::belongs(path, #[trigger] routes[j]),
        i < routes.len() ==> route::belongs(path, routes[i]),
    ensures
        route::first_route(path, routes, from) == i,
    decreases i - from,
{
    if from < i {
        assert(!route::belongs(path, routes[from]));
        taken_from(path, routes, from + 1, i);
    }
}

// ---------------------------------------------------------------------------
// Rows
// ---------------------------------------------------------------------------

/// The row of a page is looked for with the query of its route: by the slug that
/// is the first parameter where the route names a column, else with all of the
/// parameters.
pub proof fn rows_are_looked_for(route: RouteConfig, params: Seq<Seq<char>>)
    ensures
        route.match_field is Some && params.len() == 0 ==> og::query_of(route, params) is None,
        route.match_field is Some && params.len() > 0 ==> og::query_of(route, params) == Some(
            QueryModel::BySlug {
                sql: route.query@,
                field: route.match_field->0@,
                slug: params[0],
            },
        ),
        route.match_field is None ==> og::query_of(route, params) == Some(
            QueryModel::ByParams { sql: route.query@, params },
        ),
{
}

/// A page has the query of the first route that its path fits, with the
/// parameters of that, and none without a route.
pub proof fn pages_have_the_query_of_their_route(config: OgConfig, path: Seq<char>, i: int)
    requires
        0 <= i <= config.routes@.len(),
        forall|j: int|
            0 <= j < i ==> !route::fits(
                route::pieces((#[trigger] config.routes@[j]).pattern@),
                route::pieces(path),
            ),
        i < config.routes@.len() ==> route::fits(
            route::pieces(config.routes@[i].pattern@),
            route::pieces(path),
        ),
    ensures
        i == config.routes@.len() ==> og::page_query(config, path) is None,
        i < config.routes@.len() ==> og::page_query(config, path) == og::query_of(
            config.routes@[i],
            route::params_of(
                route::pieces(config.routes@[i].pattern@),
                route::pieces(path),
                route::pieces(path).len() as int,
            ),
        ),
{
    the_first_route_is_taken(path, config.routes@, i);
}

/// The slug of a row is that of its column in lower case.
pub proof fn rows_have_slugs(rows: Seq<OgRow>, i: int)
    requires
        0 <= i < rows.len(),
    ensures
        og::slugs_of(rows).len() == rows.len(),
        rows[i].field is None ==> og::slugs_of(rows)[i] is None,
        rows[i].field is Some ==> og::slugs_of(rows)[i] == Some(
            slug::slug_of(slug::lowercase(rows[i].field->0@)),
        ),
{
}

/// The place of a field is its name between double braces, and a column without a
/// text is empty.
pub proof fn places_and_empty_columns(name: Seq<char>, value: Seq<char>)
    ensures
        template::placeholder(name) == "{{"@ + name + "}}"@,
        template::text_of(None) == Seq::<char>::empty(),
        template::text_of(Some(value)) == value,
{
}

// ---------------------------------------------------------------------------
// Tags
// ---------------------------------------------------------------------------

/// An image with an address of its own is left alone; any other is on the site.
pub proof fn images_are_on_the_site(image: Seq<char>, rest: Seq<char>, site_url: Seq<char>)
    ensures
        og::image_at("http://"@ + rest, site_url) == "http://"@ + rest,
        og::image_at("https://"@ + rest, site_url) == "https://"@ + rest,
        !"http://"@.is_prefix_of(image) && !"https://"@.is_prefix_of(image) ==> og::image_at(
            image,
            site_url,
        ) == site_url + image,
{
    let a = "http://"@ + rest;
    let b = "https://"@ + rest;
    assert("http://"@ =~= a.subrange(0, "http://"@.len() as int));
    assert("https://"@ =~= b.subrange(0, "https://"@.len() as int));
}

/// A page that no route says more of has what the site says of all of them.
pub proof fn default_tags_are_those_of_the_site(
    config: OgConfig,
    site_url: Seq<char>,
    path: Seq<char>,
)
    ensures
        ({
            let tags = og::default_tags(config, site_url, path);
            &&& tags.title == config.defaults.title@
            &&& tags.description == config.defaults.description@
            &&& tags.image == og::image_at(config.defaults.image@, site_url)
            &&& tags.url == site_url + path
            &&& tags.og_type == "website"@
        }),
{
}

/// A page of a route says what its route says: with a row, the places are filled
/// with its fields; without a database, word for word. Where its image comes out
/// empty it has that of the site. Without a route, or without a row in a database,
/// it says what the site says.
pub proof fn tags_are_those_of_the_route(
    config: OgConfig,
    site_url: Seq<char>,
    path: Seq<char>,
    row: Seq<(Seq<char>, Seq<char>)>,
    i: int,
)
    requires
        0 <= i <= config.routes@.len(),
        forall|j: int|
            0 <= j < i ==> !route::fits(
                route::pieces((#[trigger] config.routes@[j]).pattern@),
                route::pieces(path),
            ),
        i < config.routes@.len() ==> route::fits(
            route::pieces(config.routes@[i].pattern@),
            route::pieces(path),
        ),
    ensures
        og::row_tags(config, site_url, path, None) == og::default_tags(config, site_url, path),
        i == config.routes@.len() ==> og::row_tags(config, site_url, path, Some(row))
            == og::default_tags(config, site_url, path) && og::literal_tags(config, site_url, path)
            == og::default_tags(config, site_url, path),
        i < config.routes@.len() ==> {
            let found = config.routes@[i];
            let literal = og::literal_tags(config, site_url, path);
            let tags = og::row_tags(config, site_url, path, Some(row));
            let or_default = |image: Seq<char>|
                og::image_at(
                    if image.len() == 0 {
                        config.defaults.image@
                    } else {
                        image
                    },
                    site_url,
                );
            &&& literal.title == found.title@
            &&& literal.description == found.description@
            &&& literal.url == site_url + path
            &&& literal.og_type == found.og_type@
            &&& found.image is Some ==> literal.image == or_default(found.image->0@)
            &&& found.image is None ==> literal.image == or_default(Seq::empty())
            &&& tags.title == template::render(found.title@, row)
            &&& tags.description == template::render(found.description@, row)
            &&& tags.url == site_url + path
            &&& tags.og_type == found.og_type@
            &&& found.image is Some ==> tags.image == or_default(
                template::render(found.image->0@, row),
            )
            &&& found.image is None ==> tags.image == or_default(Seq::empty())
        },
{
    the_first_route_is_taken(path, config.routes@, i);
}

/// The tags of a page come from its source. A page with a route is kept for a
/// day, unless the database could not be reached; any other is kept for an hour.
pub proof fn pages_by_source(app: AppConfig, path: Seq<char>, source: Source)
    ensures
        source is NoDatabase ==> og::page_tags(app, path, source) == og::literal_tags(
            app.og,
            app.site_url@,
            path,
        ),
        source is Unavailable ==> og::page_tags(app, path, source) == og::default_tags(
            app.og,
            app.site_url@,
            path,
        ),
        source matches Source::Database { row: Some(row) } ==> og::page_tags(app, path, source)
            == og::row_tags(app.og, app.site_url@, path, Some(row.deep_view())),
        source matches Source::Database { row: None } ==> og::page_tags(app, path, source)
            == og::row_tags(app.og, app.site_url@, path, None),
        route::is_routed(path, app.og.routes@) && !(source is Unavailable) ==> og::page_cache(
            app,
            path,
            source,
        ) == "public, s-maxage=86400, max-age=0"@,
        !route::is_routed(path, app.og.routes@) || source is Unavailable ==> og::page_cache(
            app,
            path,
            source,
        ) == "public, s-maxage=3600, max-age=0"@,
        DEFAULT_JS@ == "/assets/index.js"@,
        DEFAULT_CSS@ == "/assets/index.css"@,
{
}

/// Tags and queries are seen as they are.
pub proof fn tags_are_seen_as_they_are(tags: OgTags, query: OgQuery)
    ensures
        tags.deep_view() == (TagsModel {
            title: tags.title@,
            description: tags.description@,
            image: tags.image@,
            url: tags.url@,
            og_type: tags.og_type@,
        }),
        query matches OgQuery::BySlug { sql, field, slug } ==> query.deep_view()
            == (QueryModel::BySlug { sql: sql@, field: field@, slug: slug@ }),
        query matches OgQuery::ByParams { sql, params } ==> query.deep_view()
            == (QueryModel::ByParams { sql: sql@, params: text::texts(params@) }),
{
}

// ---------------------------------------------------------------------------
// Slugs
// ---------------------------------------------------------------------------

/// The slug of a word is the word; whatever stands before the first word or
/// behind the last one does not count, and between two words there is one dash.
pub proof fn slugs_word_by_word(word: Seq<char>, c: char, rest: Seq<char>)
    requires
        word.len() > 0,
        forall|i: int|
            0 <= i < word.len() ==> slug::alphanumeric(#[trigger] word[i]) && word[i] != '-',
        !slug::alphanumeric(c) || c == '-',
    ensures
        slug::slug_of(Seq::empty()) == Seq::<char>::empty(),
        slug::slug_of(word) == word,
        slug::slug_of(seq![c] + rest) == slug::slug_of(rest),
        slug::slug_of(word + seq![c] + rest) == if slug::slug_of(rest).len() == 0 {
            word
        } else {
            word + seq!['-'] + slug::slug_of(rest)
        },
{
    reveal_strlit("-");
    assert("-"@ =~= seq!['-']);
    let none = Seq::<char>::empty();
    let d = slug::dashed(rest);
    assert(slug::dashed(none) =~= none);
    assert(slug::dashed(word) =~= word);
    assert(!word.contains('-'));
    assert(slug::dashed(seq![c] + rest) =~= none + seq!['-'] + d);
    assert(slug::dashed(word + seq![c] + rest) =~= word + seq!['-'] + d);
    text::split_at_front(none, d, '-');
    text::split_at_front(word, d, '-');
    let parts = text::split(d, '-');
    let words = slug::nonempty(parts);
    nonempty_front(none, parts);
    nonempty_front(word, parts);
    nonempty_front(none, Seq::empty());
    nonempty_front(word, Seq::empty());
    assert(seq![none] + Seq::empty() =~= seq![none]);
    assert(seq![word] + Seq::empty() =~= seq![word]);
    join_front(word, words);
    slug_of_nothing(parts);
}

proof fn nonempty_front(first: Seq<char>, parts: Seq<Seq<char>>)
    ensures
        slug::nonempty(seq![first] + parts) == if first.len() == 0 {
            slug::nonempty(parts)
        } else {
            seq![first] + slug::nonempty(parts)
        },
    decreases parts.len(),
{
    let all = seq![first] + parts;
    if parts.len() == 0 {
        assert(all.drop_last() =~= Seq::<Seq<char>>::empty());
        assert(slug::nonempty(all.drop_last()) =~= Seq::<Seq<char>>::empty());
        assert(slug::nonempty(parts) =~= Seq::<Seq<char>>::empty());
        assert(slug::nonempty(all) =~= if first.len() == 0 {
            slug::nonempty(parts)
        } else {
            seq![first] + slug::nonempty(parts)
        });
    } else {
        let init = parts.drop_last();
        assert(all.drop_last() =~= seq![first] + init);
        nonempty_front(first, init);
        assert(slug::nonempty(all) =~= if first.len() == 0 {
            slug::nonempty(parts)
        } else {
            seq![first] + slug::nonempty(parts)
        });
    }
}

proof fn join_front(first: Seq<char>, words: Seq<Seq<char>>)
    ensures
        text::join(seq![first] + words, seq!['-']) == if words.len() == 0 {
            first
        } else {
            first + seq!['-'] + text::join(words, seq!['-'])
        },
    decreases words.len(),
{
    let all = seq![first] + words;
    if words.len() == 0 {
        assert(all =~= seq![first]);
    } else {
        let init = words.drop_last();
        assert(all.drop_last() =~= seq![first] + init);
        join_front(first, init);
        assert(text::join(all, seq!['-']) =~= first + seq!['-'] + text::join(words, seq!['-']));
    }
}

proof fn slug_of_nothing(parts: Seq<Seq<char>>)
    ensures
        text::join(slug::nonempty(parts), seq!['-']).len() == 0 <==> slug::nonempty(parts).len()
            == 0,
    decreases parts.len(),
{
    if parts.len() > 0 {
        slug_of_nothing(parts.drop_last());
        let words = slug::nonempty(parts);
        if words.len() > 0 && parts.last().len() > 0 {
            assert(words.drop_last() =~= slug::nonempty(parts.drop_last()));
        }
    }
}

} // verus!
