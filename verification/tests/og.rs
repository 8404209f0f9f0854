//! Pages with OpenGraph tags.

use platform_services::og::html::{html_escape, render_html};
use platform_services::og::route::match_route;
use platform_services::og::slug::{join_words, slug, slugify};
use platform_services::og::template::{fields, render_template};
use platform_services::og::{
    app_config, default_og_type, pick_row, position_of_slug, query_og, resolve_image, resolve_og, resolve_og_no_db,
    respond, OgConfig, OgDefaults, OgQuery, OgRow, OgTags, RouteConfig, Source,
};

fn test_config() -> OgConfig {
    OgConfig {
        site_name: "Test Site".into(),
        defaults: OgDefaults {
            title: "Default Title".into(),
            description: "Default Description".into(),
            image: "/default.png".into(),
        },
        routes: vec![
            RouteConfig {
                pattern: "/about".into(),
                query: String::new(),
                match_field: None,
                title: "About Us".into(),
                description: "Learn more about the project".into(),
                image: Some("/about.png".into()),
                og_type: "website".into(),
            },
            RouteConfig {
                pattern: "/".into(),
                query: String::new(),
                match_field: None,
                title: "Home".into(),
                description: "Welcome".into(),
                image: None,
                og_type: "website".into(),
            },
        ],
    }
}

#[test]
fn resolve_og_no_db_uses_literal_fields_for_matched_route() {
    let config = test_config();
    let og = resolve_og_no_db(&config, "https://example.com", "/about");
    assert_eq!(og.title, "About Us");
    assert_eq!(og.description, "Learn more about the project");
    assert_eq!(og.image, "https://example.com/about.png");
    assert_eq!(og.url, "https://example.com/about");
    assert_eq!(og.og_type, "website");
}

#[test]
fn resolve_og_no_db_falls_back_to_default_image_when_route_has_none() {
    let config = test_config();
    let og = resolve_og_no_db(&config, "https://example.com", "/");
    assert_eq!(og.title, "Home");
    assert_eq!(og.description, "Welcome");
    assert_eq!(og.image, "https://example.com/default.png");
}

#[test]
fn resolve_og_no_db_uses_defaults_for_unmatched_path() {
    let config = test_config();
    let og = resolve_og_no_db(&config, "https://example.com", "/nonexistent");
    assert_eq!(og.title, "Default Title");
    assert_eq!(og.description, "Default Description");
    assert_eq!(og.image, "https://example.com/default.png");
    assert_eq!(og.og_type, "website");
    assert_eq!(og.url, "https://example.com/nonexistent");
}

#[test]
fn resolve_og_no_db_does_not_substitute_templates() {
    let config = OgConfig {
        site_name: "Test".into(),
        defaults: OgDefaults {
            title: "Default".into(),
            description: "Default".into(),
            image: "/d.png".into(),
        },
        routes: vec![RouteConfig {
            pattern: "/page".into(),
            query: String::new(),
            match_field: None,
            title: "Literal {{unused}} Title".into(),
            description: "Literal description".into(),
            image: None,
            og_type: "website".into(),
        }],
    };
    let og = resolve_og_no_db(&config, "https://example.com", "/page");
    assert_eq!(og.title, "Literal {{unused}} Title");
}

fn recipes() -> OgConfig {
    OgConfig {
        site_name: "Cook & Co".into(),
        defaults: OgDefaults {
            title: "Recipes".into(),
            description: "All of them".into(),
            image: "https://cdn.example.com/d.png".into(),
        },
        routes: vec![
            RouteConfig {
                pattern: "/recipes/:slug".into(),
                query: "SELECT * FROM recipes".into(),
                match_field: Some("name".into()),
                title: "{{name}} by {{cook}}".into(),
                description: "{{name}}: {{text}}".into(),
                image: Some("{{picture}}".into()),
                og_type: "article".into(),
            },
            RouteConfig {
                pattern: "/cooks/:id/:page/".into(),
                query: "SELECT * FROM cooks WHERE id = $1".into(),
                match_field: None,
                title: "Cook {{name}}".into(),
                description: "A cook".into(),
                image: None,
                og_type: "profile".into(),
            },
            RouteConfig {
                pattern: "/named".into(),
                query: "SELECT 1".into(),
                match_field: Some("name".into()),
                title: "t".into(),
                description: "d".into(),
                image: None,
                og_type: "article".into(),
            },
        ],
    }
}

fn row(pairs: &[(&str, &str)]) -> Vec<(String, String)> {
    pairs.iter().map(|(k, v)| (k.to_string(), v.to_string())).collect()
}

#[test]
fn routes_match_piece_by_piece() {
    let config = recipes();
    let found = match_route("/recipes/apple-pie", &config.routes).unwrap();
    assert_eq!(found.config.og_type, "article");
    assert_eq!(found.params, vec!["apple-pie"]);
    let found = match_route("cooks/7/2/", &config.routes).unwrap();
    assert_eq!(found.params, vec!["7", "2"]);
    assert!(match_route("/recipes", &config.routes).is_none());
    assert!(match_route("/recipes/a/b", &config.routes).is_none());
    assert!(match_route("/Recipes/a", &config.routes).is_none());
    assert!(match_route("/", &config.routes).is_none());
}

#[test]
fn the_first_route_counts() {
    let mut config = recipes();
    config.routes[1].pattern = "/recipes/special".into();
    let found = match_route("/recipes/special", &config.routes).unwrap();
    assert_eq!(found.config.og_type, "article");
}

#[test]
fn slugs_are_lower_case_words_with_single_dashes() {
    assert_eq!(slugify("Apple Pie"), "apple-pie");
    assert_eq!(slugify("  --Crème  Brûlée!! "), "crème-brûlée");
    assert_eq!(slugify("Ünder 2 & 3"), "ünder-2-3");
    assert_eq!(slugify("***"), "");
    assert_eq!(slug("a--b"), "a-b");
    assert_eq!(join_words("-a--B c-"), "a-B c");
}

#[test]
fn templates_are_filled_with_every_field() {
    let values = row(&[("name", "Pie"), ("cook", "Ann")]);
    assert_eq!(render_template("{{name}} by {{cook}}, {{name}}", &values), "Pie by Ann, Pie");
    assert_eq!(render_template("no {place}", &values), "no {place}");
    assert_eq!(render_template("{{other}}", &values), "{{other}}");
}

#[test]
fn of_columns_of_one_name_the_last_counts() {
    let columns = vec![
        ("a".to_string(), Some("1".to_string())),
        ("b".to_string(), None),
        ("a".to_string(), Some("2".to_string())),
    ];
    assert_eq!(fields(&columns), row(&[("b", ""), ("a", "2")]));
}

#[test]
fn text_is_escaped_once() {
    assert_eq!(html_escape("a & b"), "a &amp; b");
    assert_eq!(html_escape("<\"x\">"), "&lt;&quot;x&quot;&gt;");
    assert_eq!(html_escape("&lt;"), "&amp;lt;");
    assert_eq!(html_escape("it's"), "it's");
}

#[test]
fn images_are_on_the_site_unless_they_have_an_address() {
    assert_eq!(resolve_image("/a.png", "https://s"), "https://s/a.png");
    assert_eq!(resolve_image("http://x/a.png", "https://s"), "http://x/a.png");
    assert_eq!(resolve_image("https://x/a.png", "https://s"), "https://x/a.png");
    assert_eq!(resolve_image("ftp://x", "https://s"), "https://sftp://x");
}

#[test]
fn a_row_fills_the_tags() {
    let config = recipes();
    let found = Some(row(&[("name", "Pie"), ("cook", "Ann"), ("text", "good"), ("picture", "/p.png")]));
    let og = resolve_og(&config, "https://s", "/recipes/pie", &found);
    assert_eq!(og.title, "Pie by Ann");
    assert_eq!(og.description, "Pie: good");
    assert_eq!(og.image, "https://s/p.png");
    assert_eq!(og.url, "https://s/recipes/pie");
    assert_eq!(og.og_type, "article");
    let blank = Some(row(&[("picture", "")]));
    let og = resolve_og(&config, "https://s", "/recipes/pie", &blank);
    assert_eq!(og.image, "https://cdn.example.com/d.png");
    let og = resolve_og(&config, "https://s", "/recipes/pie", &None);
    assert_eq!(og.title, "Recipes");
    assert_eq!(og.og_type, "website");
    let og = resolve_og(&config, "https://s", "/elsewhere", &blank);
    assert_eq!(og.title, "Recipes");
}

#[test]
fn slashes_at_the_ends_of_a_path_do_not_count() {
    let config = recipes();
    for path in ["recipes/pie", "/recipes/pie", "recipes/pie/", "///recipes/pie//"] {
        let found = match_route(path, &config.routes).unwrap();
        assert_eq!(found.config.pattern, "/recipes/:slug");
        assert_eq!(found.params, vec!["pie"]);
    }
    assert!(match_route("/recipes//pie", &config.routes).is_none());
}

#[test]
fn the_order_of_the_fields_does_not_matter() {
    let template = "{ {{a}}{{b}} } {{c}}";
    let there = render_template(template, &row(&[("a", "1"), ("b", "2")]));
    let back = render_template(template, &row(&[("b", "2"), ("a", "1")]));
    assert_eq!(there, "{ 12 } {{c}}");
    assert_eq!(back, there);
    let nested = "{{x{{a}}}}";
    assert_eq!(render_template(nested, &row(&[("a", "y"), ("xy", "1")])), "1");
    assert_eq!(render_template(nested, &row(&[("xy", "1"), ("a", "y")])), "{{xy}}");
}

#[test]
fn escaping_can_be_undone() {
    for s in ["", "a & b", "&gt; <i>\"x\"</i> &amp;amp;", "&&quot;\">"] {
        let back = html_escape(s)
            .replace("&gt;", ">")
            .replace("&lt;", "<")
            .replace("&quot;", "\"")
            .replace("&amp;", "&");
        assert_eq!(back, s);
    }
    assert_eq!(html_escape("a<b"), html_escape("a") + &html_escape("<b"));
}

#[test]
fn rows_are_looked_for_by_slug_or_by_parameters() {
    let config = recipes();
    match query_og(&config, "/recipes/apple-pie") {
        Some(OgQuery::BySlug { sql, field, slug }) => {
            assert_eq!(sql, "SELECT * FROM recipes");
            assert_eq!(field, "name");
            assert_eq!(slug, "apple-pie");
        }
        _ => panic!("a query by slug"),
    }
    match query_og(&config, "/cooks/7/2") {
        Some(OgQuery::ByParams { sql, params }) => {
            assert_eq!(sql, "SELECT * FROM cooks WHERE id = $1");
            assert_eq!(params, vec!["7", "2"]);
        }
        _ => panic!("a query by parameters"),
    }
    assert!(query_og(&config, "/named").is_none());
    assert!(query_og(&config, "/elsewhere").is_none());
}

fn og_row(name: Option<&str>) -> OgRow {
    OgRow {
        field: name.map(|n| n.to_string()),
        columns: vec![("name".to_string(), name.map(|n| n.to_string()))],
    }
}

#[test]
fn the_first_row_with_the_slug_is_picked() {
    let rows = vec![og_row(Some("Pear Tart")), og_row(Some("Apple Pie")), og_row(Some("APPLE PIE"))];
    assert_eq!(pick_row(&rows, "apple-pie"), Some(row(&[("name", "Apple Pie")])));
    assert_eq!(pick_row(&rows, "plum"), None);
    let rows = vec![og_row(Some("Apple Pie")), og_row(None), og_row(Some("Plum"))];
    assert_eq!(pick_row(&rows, "apple-pie"), Some(row(&[("name", "Apple Pie")])));
    assert_eq!(pick_row(&rows, "plum"), None);
    let slugs = vec![Some("a".to_string()), Some("b".to_string()), None, Some("c".to_string())];
    assert_eq!(position_of_slug(&slugs, "b"), Some(1));
    assert_eq!(position_of_slug(&slugs, "c"), None);
    assert_eq!(position_of_slug(&slugs, "d"), None);
}

#[test]
fn a_page_carries_its_tags() {
    let og = OgTags {
        title: "A <b>".into(),
        description: "say \"hi\"".into(),
        image: "/i.png?a=1&b=2".into(),
        url: "https://s/x".into(),
        og_type: "article".into(),
    };
    let html = render_html(&og, "Cook & Co", "/e.js", "/e.css");
    let lines: Vec<&str> = html.split('\n').collect();
    assert_eq!(lines.len(), 28);
    assert_eq!(lines[0], "<!DOCTYPE html><html lang=\"en\"><head>");
    assert_eq!(lines[11], "<title>A &lt;b&gt; | Cook &amp; Co</title>");
    assert_eq!(lines[12], "<meta name=\"description\" content=\"say &quot;hi&quot;\" />");
    assert_eq!(lines[13], "<meta property=\"og:title\" content=\"A &lt;b&gt;\" />");
    assert_eq!(lines[15], "<meta property=\"og:image\" content=\"/i.png?a=1&amp;b=2\" />");
    assert_eq!(lines[16], "<meta property=\"og:url\" content=\"https://s/x\" />");
    assert_eq!(lines[17], "<meta property=\"og:type\" content=\"article\" />");
    assert_eq!(lines[18], "<meta property=\"og:site_name\" content=\"Cook &amp; Co\" />");
    assert_eq!(lines[23], "<link rel=\"stylesheet\" crossorigin href=\"/e.css\" />");
    assert_eq!(lines[26], "<script type=\"module\" crossorigin src=\"/e.js\"></script>");
    assert_eq!(lines[27], "</body></html>");
}

#[test]
fn pages_of_routes_are_kept_longer_unless_the_database_is_away() {
    let app = app_config(recipes(), None, Some("/x.css".into()), "https://s".into());
    assert_eq!(app.entry_js, "/assets/index.js");
    assert_eq!(app.entry_css, "/x.css");
    let long = "public, s-maxage=86400, max-age=0";
    let short = "public, s-maxage=3600, max-age=0";
    let page = respond(&app, "/recipes/pie", &Source::Database { row: None });
    assert_eq!(page.status, 200);
    assert_eq!(page.content_type, "text/html; charset=utf-8");
    assert_eq!(page.cache_control, long);
    let page = respond(&app, "/recipes/pie", &Source::Unavailable);
    assert_eq!(page.cache_control, short);
    assert!(page.html.contains("<title>Recipes | Cook &amp; Co</title>"));
    assert!(!page.html.contains("{{"));
    let page = respond(&app, "/elsewhere", &Source::NoDatabase);
    assert_eq!(page.cache_control, short);
    let page = respond(&app, "/cooks/1/2", &Source::NoDatabase);
    assert_eq!(page.cache_control, long);
    assert!(page.html.contains("<title>Cook {{name}} | Cook &amp; Co</title>"));
}

#[test]
fn defaults_of_a_configuration() {
    assert_eq!(default_og_type(), "article");
    let app = app_config(recipes(), Some("/m.js".into()), None, "https://s".into());
    assert_eq!(app.entry_js, "/m.js");
    assert_eq!(app.entry_css, "/assets/index.css");
}
