//! Pages with OpenGraph tags for the routes of a site.

use vstd::prelude::*;
use vstd::string::*;

use crate::text;

pub mod html;
pub mod html_laws;
pub mod page_laws;
pub mod route;
pub mod slug;
pub mod template;

verus! {

/// What a site says of its pages.
pub struct OgConfig {
    pub site_name: String,
    pub defaults: OgDefaults,
    pub routes: Vec<RouteConfig>,
}

/// What is said of a page that no route says more of.
pub struct OgDefaults {
    pub title: String,
    pub description: String,
    pub image: String,
}

/// What is said of the pages of a route.
pub struct RouteConfig {
    /// The paths of the route, with parameters such as `/recipes/:slug`.
    pub pattern: String,
    /// The query for the row of a page.
    pub query: String,
    /// The column whose slug the first parameter is; without it the parameters
    /// are those of the query.
    pub match_field: Option<String>,
    /// The title, with places for the fields of the row.
    pub title: String,
    /// The description, with places for the fields of the row.
    pub description: String,
    /// The image, with places for the fields of the row.
    pub image: Option<String>,
    pub og_type: String,
}

/// The tags of a page.
pub struct OgTags {
    pub title: String,
    pub description: String,
    pub image: String,
    pub url: String,
    pub og_type: String,
}

/// What the tags of a page say.
#[verifier::ext_equal]
pub struct TagsModel {
    pub title: Seq<char>,
    pub description: Seq<char>,
    pub image: Seq<char>,
    pub url: Seq<char>,
    pub og_type: Seq<char>,
}

impl DeepView for OgTags {
    type V = TagsModel;

    open spec fn deep_view(&self) -> TagsModel {
        TagsModel {
            title: self.title@,
            description: self.description@,
            image: self.image@,
            url: self.url@,
            og_type: self.og_type@,
        }
    }
}

/// The type of the pages of a route that none is given for.
pub fn default_og_type() -> (r: String)
    ensures
        r@ == "article"@,
{
    "article".to_string()
}

/// Where an image is: one that is no address of its own is on the site.
pub open spec fn image_at(image: Seq<char>, site_url: Seq<char>) -> Seq<char> {
    if "http://"@.is_prefix_of(image) || "https://"@.is_prefix_of(image) {
        image
    } else {
        site_url + image
    }
}

/// Where an image is.
pub fn resolve_image(image: &str, site_url: &str) -> (r: String)
    ensures
        r@ == image_at(image@, site_url@),
{
    if text::starts_with(image, "http://") || text::starts_with(image, "https://") {
        image.to_string()
    } else {
        String::from_str(site_url).concat(image)
    }
}

/// The tags of a page that no route says more of.
pub open spec fn default_tags(config: OgConfig, site_url: Seq<char>, path: Seq<char>) -> TagsModel {
    TagsModel {
        title: config.defaults.title@,
        description: config.defaults.description@,
        image: image_at(config.defaults.image@, site_url),
        url: site_url + path,
        og_type: "website"@,
    }
}

/// The image of a page: that of its route, or the default where that is empty.
pub open spec fn image_or_default(
    image: Seq<char>,
    config: OgConfig,
    site_url: Seq<char>,
) -> Seq<char> {
    if image.len() == 0 {
        image_at(config.defaults.image@, site_url)
    } else {
        image_at(image, site_url)
    }
}

/// What a route says of the image of its pages.
pub open spec fn route_image(config: RouteConfig) -> Seq<char> {
    match config.image {
        Some(image) => image@,
        None => Seq::empty(),
    }
}

/// The tags of a page of a site without a database: what the first route says
/// that the path belongs to, word for word.
pub open spec fn literal_tags(config: OgConfig, site_url: Seq<char>, path: Seq<char>) -> TagsModel {
    if route::is_routed(path, config.routes@) {
        let found = config.routes@[route::first_route(path, config.routes@, 0)];
        TagsModel {
            title: found.title@,
            description: found.description@,
            image: image_or_default(route_image(found), config, site_url),
            url: site_url + path,
            og_type: found.og_type@,
        }
    } else {
        default_tags(config, site_url, path)
    }
}

/// The tags of a page, with the row that was found for it: the places in what
/// its route says are filled with the fields of the row. Without a route or a
/// row it has the default tags.
pub open spec fn row_tags(
    config: OgConfig,
    site_url: Seq<char>,
    path: Seq<char>,
    row: Option<Seq<(Seq<char>, Seq<char>)>>,
) -> TagsModel {
    if route::is_routed(path, config.routes@) && row is Some {
        let found = config.routes@[route::first_route(path, config.routes@, 0)];
        let row = row->0;
        TagsModel {
            title: template::render(found.title@, row),
            description: template::render(found.description@, row),
            image: image_or_default(
                match found.image {
                    Some(image) => template::render(image@, row),
                    None => Seq::empty(),
                },
                config,
                site_url,
            ),
            url: site_url + path,
            og_type: found.og_type@,
        }
    } else {
        default_tags(config, site_url, path)
    }
}

/// The tags of a page that no route says more of.
pub fn default_og(config: &OgConfig, site_url: &str, path: &str) -> (r: OgTags)
    ensures
        r.deep_view() == default_tags(*config, site_url@, path@),
{
    OgTags {
        title: config.defaults.title.clone(),
        description: config.defaults.description.clone(),
        image: resolve_image(config.defaults.image.as_str(), site_url),
        url: String::from_str(site_url).concat(path),
        og_type: "website".to_string(),
    }
}

fn resolve_or_default(image: &str, config: &OgConfig, site_url: &str) -> (r: String)
    ensures
        r@ == image_or_default(image@, *config, site_url@),
{
    proof {
        reveal_strlit("");
        if image@.len() == 0 {
            assert(image@ =~= ""@);
        }
    }
    if text::same(image, "") {
        resolve_image(config.defaults.image.as_str(), site_url)
    } else {
        resolve_image(image, site_url)
    }
}

/// The tags of a page of a site without a database.
pub fn resolve_og_no_db(config: &OgConfig, site_url: &str, path: &str) -> (r: OgTags)
    ensures
        r.deep_view() == literal_tags(*config, site_url@, path@),
{
    match route::match_route(path, &config.routes) {
        Some(matched) => {
            let image = match &matched.config.image {
                Some(image) => image.clone(),
                None => String::new(),
            };
            OgTags {
                title: matched.config.title.clone(),
                description: matched.config.description.clone(),
                image: resolve_or_default(image.as_str(), config, site_url),
                url: String::from_str(site_url).concat(path),
                og_type: matched.config.og_type.clone(),
            }
        },
        None => default_og(config, site_url, path),
    }
}

/// A row as contracts speak of it.
pub open spec fn row_view(row: Option<Vec<(String, String)>>) -> Option<
    Seq<(Seq<char>, Seq<char>)>,
> {
    match row {
        Some(row) => Some(row.deep_view()),
        None => None,
    }
}

/// The tags of a page, with the row that was found for it.
pub fn resolve_og(
    config: &OgConfig,
    site_url: &str,
    path: &str,
    row: &Option<Vec<(String, String)>>,
) -> (r: OgTags)
    ensures
        r.deep_view() == row_tags(*config, site_url@, path@, row_view(*row)),
{
    match (route::match_route(path, &config.routes), row) {
        (Some(matched), Some(row)) => {
            let image = match &matched.config.image {
                Some(image) => template::render_template(image.as_str(), row),
                None => String::new(),
            };
            OgTags {
                title: template::render_template(matched.config.title.as_str(), row),
                description: template::render_template(matched.config.description.as_str(), row),
                image: resolve_or_default(image.as_str(), config, site_url),
                url: String::from_str(site_url).concat(path),
                og_type: matched.config.og_type.clone(),
            }
        },
        _ => default_og(config, site_url, path),
    }
}

// ---------------------------------------------------------------------------
// The row of a page
// ---------------------------------------------------------------------------

/// How the row of a page is looked for.
pub enum OgQuery {
    /// Among all rows of a query: the first whose column has this slug.
    BySlug { sql: String, field: String, slug: String },
    /// As the only row of a query with these parameters.
    ByParams { sql: String, params: Vec<String> },
}

/// What an [`OgQuery`] says.
#[verifier::ext_equal]
pub enum QueryModel {
    BySlug { sql: Seq<char>, field: Seq<char>, slug: Seq<char> },
    ByParams { sql: Seq<char>, params: Seq<Seq<char>> },
}

impl DeepView for OgQuery {
    type V = QueryModel;

    open spec fn deep_view(&self) -> QueryModel {
        match *self {
            OgQuery::BySlug { sql, field, slug } => QueryModel::BySlug {
                sql: sql@,
                field: field@,
                slug: slug@,
            },
            OgQuery::ByParams { sql, params } => QueryModel::ByParams {
                sql: sql@,
                params: text::texts(params@),
            },
        }
    }
}

/// How the row of a page of a route is looked for, if there can be one: a slug
/// is the first parameter.
pub open spec fn query_of(config: RouteConfig, params: Seq<Seq<char>>) -> Option<QueryModel> {
    match config.match_field {
        Some(field) => if params.len() == 0 {
            None
        } else {
            Some(
                QueryModel::BySlug { sql: config.query@, field: field@, slug: params[0] },
            )
        },
        None => Some(QueryModel::ByParams { sql: config.query@, params }),
    }
}

/// How the row of a page is looked for.
pub open spec fn page_query(config: OgConfig, path: Seq<char>) -> Option<QueryModel> {
    if route::is_routed(path, config.routes@) {
        let found = config.routes@[route::first_route(path, config.routes@, 0)];
        query_of(found, route::route_params(path, found))
    } else {
        None
    }
}

/// How the row of a page is looked for, if it has a route and there can be one.
pub fn query_og(config: &OgConfig, path: &str) -> (r: Option<OgQuery>)
    ensures
        (match r {
            Some(query) => Some(query.deep_view()),
            None => None,
        }) == page_query(*config, path@),
{
    match route::match_route(path, &config.routes) {
        Some(matched) => {
            let sql = matched.config.query.clone();
            match &matched.config.match_field {
                Some(field) => {
                    if matched.params.len() == 0 {
                        None
                    } else {
                        assert(text::texts(matched.params@)[0] == matched.params@[0]@);
                        Some(
                            OgQuery::BySlug {
                                sql,
                                field: field.clone(),
                                slug: matched.params[0].clone(),
                            },
                        )
                    }
                },
                None => Some(OgQuery::ByParams { sql, params: matched.params }),
            }
        },
        None => None,
    }
}

/// A row of a query for slugs: the text of the column that the slug is of, if
/// that holds one, and name and text of every column.
pub struct OgRow {
    pub field: Option<String>,
    pub columns: Vec<(String, Option<String>)>,
}

/// Where a slug stands among the slugs of rows, from `from` on, and `None` where
/// it does not. Every row is taken to have a slug: one that has none ends the
/// search.
pub open spec fn find_slug(
    slugs: Seq<Option<Seq<char>>>,
    slug: Seq<char>,
    from: int,
) -> Option<int>
    decreases slugs.len() - from,
{
    if from >= slugs.len() {
        None
    } else {
        match slugs[from] {
            None => None,
            Some(s) => if s == slug {
                Some(from)
            } else {
                find_slug(slugs, slug, from + 1)
            },
        }
    }
}

/// Where a slug stands among the slugs of rows.
pub fn position_of_slug(slugs: &Vec<Option<String>>, slug: &str) -> (r: Option<usize>)
    ensures
        (match r {
            Some(at) => Some(at as int),
            None => None,
        }) == find_slug(slugs.deep_view(), slug@, 0),
        r matches Some(at) ==> at < slugs@.len(),
{
    let mut i: usize = 0;
    while i < slugs.len()
        invariant
            i <= slugs@.len(),
            find_slug(slugs.deep_view(), slug@, 0) == find_slug(
                slugs.deep_view(),
                slug@,
                i as int,
            ),
        decreases slugs@.len() - i,
    {
        assert(slugs.deep_view()[i as int] == slugs@[i as int].deep_view());
        match &slugs[i] {
            None => {
                return None;
            },
            Some(s) => {
                if text::same(s.as_str(), slug) {
                    return Some(i);
                }
            },
        }
        i += 1;
    }
    None
}

/// Whether the row at `at` is the first with a slug, and every row before it has
/// another one.
pub open spec fn slug_stands_at(
    slugs: Seq<Option<Seq<char>>>,
    slug: Seq<char>,
    from: int,
    at: int,
) -> bool {
    &&& from <= at < slugs.len()
    &&& slugs[at] == Some(slug)
    &&& forall|i: int| from <= i < at ==> #[trigger] slugs[i] is Some && slugs[i] != Some(slug)
}

/// The first row with a slug is found if and only if every row before it has a
/// slug too.
pub proof fn slug_is_found(slugs: Seq<Option<Seq<char>>>, slug: Seq<char>, from: int)
    requires
        0 <= from <= slugs.len(),
    ensures
        forall|at: int|
            find_slug(slugs, slug, from) == Some(at) <==> #[trigger] slug_stands_at(
                slugs,
                slug,
                from,
                at,
            ),
    decreases slugs.len() - from,
{
    if from < slugs.len() {
        slug_is_found(slugs, slug, from + 1);
        assert forall|at: int|
            find_slug(slugs, slug, from) == Some(at) <==> #[trigger] slug_stands_at(
                slugs,
                slug,
                from,
                at,
            ) by {
            if slugs[from] is Some && slugs[from] != Some(slug) {
                assert(slug_stands_at(slugs, slug, from + 1, at) <==> slug_stands_at(
                    slugs,
                    slug,
                    from,
                    at,
                ));
            }
        }
    }
}

/// The slug of each row, if its column holds a text.
pub open spec fn slugs_of(rows: Seq<OgRow>) -> Seq<Option<Seq<char>>> {
    rows.map_values(
        |row: OgRow|
            match row.field {
                Some(field) => Some(slug::slug_of(slug::lowercase(field@))),
                None => None,
            },
    )
}

/// The slug of each row.
fn row_slugs(rows: &Vec<OgRow>) -> (r: Vec<Option<String>>)
    ensures
        r.deep_view() == slugs_of(rows@),
{
    let mut r: Vec<Option<String>> = Vec::new();
    let mut i: usize = 0;
    let ghost all = slugs_of(rows@);
    assert(r.deep_view() =~= all.take(0));
    while i < rows.len()
        invariant
            i <= rows@.len(),
            all == slugs_of(rows@),
            r.deep_view() == all.take(i as int),
        decreases rows@.len() - i,
    {
        let ghost front = r.deep_view();
        r.push(
            match &rows[i].field {
                Some(field) => Some(slug::slugify(field.as_str())),
                None => None,
            },
        );
        assert(r.deep_view() =~= front.push(all[i as int]));
        assert(all.take(i + 1) =~= all.take(i as int).push(all[i as int]));
        i += 1;
    }
    assert(all.take(i as int) =~= all);
    r
}

/// The fields of the first row that has this slug.
pub fn pick_row(rows: &Vec<OgRow>, slug: &str) -> (r: Option<Vec<(String, String)>>)
    ensures
        row_view(r) == match find_slug(slugs_of(rows@), slug@, 0) {
            Some(at) => Some(
                template::fields_of(
                    rows@[at].columns.deep_view(),
                    rows@[at].columns@.len() as int,
                ),
            ),
            None => None,
        },
{
    let slugs = row_slugs(rows);
    assert(slugs.deep_view().len() == rows@.len());
    match position_of_slug(&slugs, slug) {
        Some(at) => Some(template::fields(&rows[at].columns)),
        None => None,
    }
}

// ---------------------------------------------------------------------------
// The answer to a request
// ---------------------------------------------------------------------------

/// The site's entry script where none is given.
pub const DEFAULT_JS: &'static str = "/assets/index.js";

/// The site's style sheet where none is given.
pub const DEFAULT_CSS: &'static str = "/assets/index.css";

/// How long the page of a route is kept.
pub const LONG_CACHE: &'static str = "public, s-maxage=86400, max-age=0";

/// How long any other page is kept.
pub const SHORT_CACHE: &'static str = "public, s-maxage=3600, max-age=0";

/// What the pages of a site are made with.
pub struct AppConfig {
    pub og: OgConfig,
    pub entry_js: String,
    pub entry_css: String,
    pub site_url: String,
}

/// A site with what it is configured with.
pub fn app_config(
    og: OgConfig,
    entry_js: Option<String>,
    entry_css: Option<String>,
    site_url: String,
) -> (r: AppConfig)
    ensures
        r.og == og,
        r.site_url == site_url,
        r.entry_js@ == (match entry_js {
            Some(js) => js@,
            None => DEFAULT_JS@,
        }),
        r.entry_css@ == (match entry_css {
            Some(css) => css@,
            None => DEFAULT_CSS@,
        }),
{
    AppConfig {
        og,
        entry_js: match entry_js {
            Some(js) => js,
            None => DEFAULT_JS.to_string(),
        },
        entry_css: match entry_css {
            Some(css) => css,
            None => DEFAULT_CSS.to_string(),
        },
        site_url,
    }
}

/// Where the rows of a site's pages come from.
pub enum Source {
    /// The site has no database.
    NoDatabase,
    /// The site's database cannot be reached.
    Unavailable,
    /// The database was asked: the row of the page, if there is one.
    Database { row: Option<Vec<(String, String)>> },
}

/// A page as it is sent.
pub struct Page {
    pub status: u16,
    pub content_type: String,
    pub cache_control: String,
    pub html: String,
}

/// The tags of a page, as far as the source of its row allows.
pub open spec fn page_tags(app: AppConfig, path: Seq<char>, source: Source) -> TagsModel {
    match source {
        Source::NoDatabase => literal_tags(app.og, app.site_url@, path),
        Source::Unavailable => default_tags(app.og, app.site_url@, path),
        Source::Database { row } => row_tags(app.og, app.site_url@, path, row_view(row)),
    }
}

/// How long a page is kept: one of a route longer, unless its database could
/// not be reached.
pub open spec fn page_cache(app: AppConfig, path: Seq<char>, source: Source) -> Seq<char> {
    if !(source is Unavailable) && route::is_routed(path, app.og.routes@) {
        LONG_CACHE@
    } else {
        SHORT_CACHE@
    }
}

/// The page of a path.
pub fn respond(app: &AppConfig, path: &str, source: &Source) -> (page: Page)
    ensures
        page.status == 200,
        page.content_type@ == "text/html; charset=utf-8"@,
        page.cache_control@ == page_cache(*app, path@, *source),
        page.html@ == html::page_of(
            page_tags(*app, path@, *source),
            app.og.site_name@,
            app.entry_js@,
            app.entry_css@,
        ),
{
    let site_url = app.site_url.as_str();
    let (og, failed) = match source {
        Source::NoDatabase => (resolve_og_no_db(&app.og, site_url, path), false),
        Source::Unavailable => (default_og(&app.og, site_url, path), true),
        Source::Database { row } => (resolve_og(&app.og, site_url, path, row), false),
    };
    let routed: bool = match route::match_route(path, &app.og.routes) {
        Some(_) => true,
        None => false,
    };
    let cache = if !failed && routed {
        LONG_CACHE
    } else {
        SHORT_CACHE
    };
    Page {
        status: 200,
        content_type: "text/html; charset=utf-8".to_string(),
        cache_control: cache.to_string(),
        html: html::render_html(
            &og,
            app.og.site_name.as_str(),
            app.entry_js.as_str(),
            app.entry_css.as_str(),
        ),
    }
}

/// While the database of a site cannot be reached, no place of a template is
/// shown: every page has the default tags, and is kept for the shorter time.
pub proof fn outage_shows_no_template(app: AppConfig, path: Seq<char>)
    ensures
        page_tags(app, path, Source::Unavailable) == default_tags(app.og, app.site_url@, path),
        page_cache(app, path, Source::Unavailable) == SHORT_CACHE@,
{
}

/// A row whose fields have no place in what a route says changes nothing: the
/// tags are those of a site without a database.
pub proof fn literal_route_needs_no_row(
    config: OgConfig,
    site_url: Seq<char>,
    path: Seq<char>,
    row: Seq<(Seq<char>, Seq<char>)>,
)
    requires
        route::is_routed(path, config.routes@),
        ({
            let found = config.routes@[route::first_route(path, config.routes@, 0)];
            forall|i: int|
                0 <= i < row.len() ==> {
                    let place = template::placeholder((#[trigger] row[i]).0);
                    &&& !text::contains(found.title@, place)
                    &&& !text::contains(found.description@, place)
                    &&& !text::contains(route_image(found), place)
                }
        }),
    ensures
        row_tags(config, site_url, path, Some(row)) == literal_tags(config, site_url, path),
{
    let found = config.routes@[route::first_route(path, config.routes@, 0)];
    let n = row.len() as int;
    template::render_literal(found.title@, row, n);
    template::render_literal(found.description@, row, n);
    template::render_literal(route_image(found), row, n);
}

} // verus!
