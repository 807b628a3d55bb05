use miniblog::escape::escape_str;
use miniblog::http::{index, post};
use miniblog::lookup::{find, str_eq, LookupError};
use miniblog::numfmt::i64_to_string;
use miniblog::post::BlogPost;
use miniblog::render::{rmdashes, IndexTemplate, PostTemplate};

fn entry(id: i64, published: i64, title: &str, content: &str) -> BlogPost {
    BlogPost {
        id,
        date_published: published,
        date_last_edited: published,
        title: title.to_string(),
        content: content.to_string(),
    }
}

#[test]
fn find_returns_the_matching_post() {
    let posts = vec![
        entry(1, 10, "First", "one"),
        entry(2, 20, "Second", "two"),
        entry(3, 30, "Third", "three"),
    ];
    let hit = find(&posts, "Second").unwrap();
    assert_eq!(hit.id, 2);
    assert_eq!(hit.title, "Second");
    assert_eq!(hit.content, "two");
}

#[test]
fn find_missing_title_signals_not_found() {
    let posts = vec![entry(1, 10, "First", "one")];
    assert_eq!(find(&posts, "Nope").unwrap_err(), LookupError::NotFound);
    let empty: Vec<BlogPost> = Vec::new();
    assert_eq!(find(&empty, "First").unwrap_err(), LookupError::NotFound);
}

#[test]
fn find_returns_the_first_of_equal_titles() {
    let posts = vec![
        entry(1, 10, "Dup", "first body"),
        entry(2, 20, "Dup", "second body"),
    ];
    let hit = find(&posts, "Dup").unwrap();
    assert_eq!(hit.id, 1);
}

#[test]
fn find_is_exact_no_normalization() {
    let posts = vec![entry(1, 10, "Hello World", "x")];
    assert!(find(&posts, "hello world").is_err());
    assert!(find(&posts, "Hello World ").is_err());
    assert!(find(&posts, "Hello World").is_ok());
}

#[test]
fn repeated_lookups_return_identical_results() {
    let posts = vec![entry(1, 10, "A", "a"), entry(2, 20, "B", "b")];
    let r1 = find(&posts, "B").unwrap().clone();
    let r2 = find(&posts, "B").unwrap().clone();
    assert_eq!(r1, r2);
    assert!(find(&posts, "C").is_err());
    assert!(find(&posts, "C").is_err());
}

#[test]
fn str_eq_is_codepoint_equality() {
    assert!(str_eq("", ""));
    assert!(str_eq("abc", "abc"));
    assert!(!str_eq("abc", "abd"));
    assert!(!str_eq("abc", "ab"));
    assert!(str_eq("héllo", "héllo"));
    assert!(!str_eq("héllo", "hello"));
}

#[test]
fn hello_world_scenario() {
    let posts = vec![entry(1, 1700000000, "Hello World", "First post!")];
    let ok = post(&posts, "Hello World");
    assert_eq!(ok.status, 200);
    assert!(ok.content_html);
    assert!(ok.body.contains("Hello World"));
    assert!(ok.body.contains("1700000000"));
    assert!(ok.body.contains("First post!"));
    let miss = post(&posts, "Nope");
    assert_eq!(miss.status, 404);
    assert!(!miss.content_html);
    assert_eq!(miss.body, "404 not found");
}

#[test]
fn post_page_exact_document() {
    let posts = vec![entry(7, 123, "T", "B")];
    let r = post(&posts, "T");
    assert_eq!(r.status, 200);
    assert_eq!(
        r.body,
        "<!DOCTYPE html><html><head><title>Blog</title></head><body>\
         <h1>T</h1><p class=\"date\">123</p>\
         <div class=\"content\">B</div></body></html>"
    );
}

#[test]
fn post_template_render_exact() {
    let t = PostTemplate {
        title: "Blog".to_string(),
        post_title: "My Post".to_string(),
        post_date: "42".to_string(),
        post_body: "Hello".to_string(),
    };
    assert_eq!(
        t.render(),
        "<!DOCTYPE html><html><head><title>Blog</title></head><body><h1>My Post</h1>\
         <p class=\"date\">42</p><div class=\"content\">Hello</div></body></html>"
    );
}

#[test]
fn home_page_exact_document() {
    let posts = vec![entry(1, 10, "A", "a"), entry(2, 20, "B", "b")];
    let r = index(&posts);
    assert_eq!(r.status, 200);
    assert!(r.content_html);
    assert_eq!(
        r.body,
        "<!DOCTYPE html><html><head><title>Home</title></head><body><h1>Home</h1>\
         <ul><li><a href=\"/post/A\">A</a></li><li><a href=\"/post/B\">B</a></li></ul>\
         </body></html>"
    );
}

#[test]
fn home_page_of_empty_collection() {
    let posts: Vec<BlogPost> = Vec::new();
    let r = index(&posts);
    assert_eq!(r.status, 200);
    assert_eq!(
        r.body,
        "<!DOCTYPE html><html><head><title>Home</title></head><body><h1>Home</h1>\
         <ul></ul></body></html>"
    );
}

#[test]
fn home_page_lists_titles_in_collection_order() {
    let posts = vec![
        entry(1, 10, "zebra", "z"),
        entry(2, 20, "apple", "a"),
        entry(3, 30, "mango", "m"),
    ];
    let body = index(&posts).body;
    let pz = body.find(">zebra<").unwrap();
    let pa = body.find(">apple<").unwrap();
    let pm = body.find(">mango<").unwrap();
    assert!(pz < pa && pa < pm);
    assert!(!body.contains(">pear<"));
}

#[test]
fn rendering_escapes_html_text() {
    let posts = vec![entry(1, 10, "a<b>&\"'", "<script>alert('x')</script>")];
    let r = post(&posts, "a<b>&\"'");
    assert_eq!(r.status, 200);
    assert!(r.body.contains("a&lt;b&gt;&amp;&quot;&#x27;"));
    assert!(r.body.contains("&lt;script&gt;alert(&#x27;x&#x27;)&lt;/script&gt;"));
    assert!(!r.body.contains("<script>"));
}

#[test]
fn escape_str_exact() {
    assert_eq!(escape_str(""), "");
    assert_eq!(escape_str("plain text 123"), "plain text 123");
    assert_eq!(escape_str("a<b&c>\"'"), "a&lt;b&amp;c&gt;&quot;&#x27;");
}

#[test]
fn rmdashes_replaces_dashes_with_spaces() {
    assert_eq!(rmdashes("Hello-World"), "Hello World");
    assert_eq!(rmdashes("no dashes here"), "no dashes here");
    assert_eq!(rmdashes("--"), "  ");
    assert_eq!(rmdashes(""), "");
}

#[test]
fn decimal_rendering_of_timestamps() {
    assert_eq!(i64_to_string(0), "0");
    assert_eq!(i64_to_string(7), "7");
    assert_eq!(i64_to_string(1700000000), "1700000000");
    assert_eq!(i64_to_string(-42), "-42");
    assert_eq!(i64_to_string(i64::MAX), "9223372036854775807");
    assert_eq!(i64_to_string(i64::MIN), "-9223372036854775808");
}

#[test]
fn index_template_render_matches_links() {
    let t = IndexTemplate {
        title: "Home".to_string(),
        index_links: vec!["One".to_string(), "Two".to_string()],
    };
    let html = t.render();
    assert!(html.contains("<li><a href=\"/post/One\">One</a></li>"));
    assert!(html.contains("<li><a href=\"/post/Two\">Two</a></li>"));
}
