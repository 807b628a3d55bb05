use vstd::prelude::*;

use crate::lookup::find;
use crate::lookup::spec_find;
use crate::numfmt::dec_str;
use crate::numfmt::i64_to_string;
use crate::post::BlogPost;
use crate::render::home_html;
use crate::render::post_html;
use crate::render::IndexTemplate;
use crate::render::PostTemplate;

verus! {

/// What a route handler decides: the HTTP status, whether the body is an
/// HTML document or plain text, and the body itself.
pub struct HttpReply {
    pub status: u16,
    pub content_html: bool,
    pub body: String,
}

/// The titles of the posts, in collection order.
pub open spec fn titles_of(posts: Seq<BlogPost>) -> Seq<String> {
    posts.map_values(|p: BlogPost| p.title)
}

/// The post route: look the requested title up in the collection; on a match
/// answer 200 with the rendered post page, otherwise 404 with a fixed
/// plain-text body.
pub fn post(posts: &Vec<BlogPost>, query_title: &str) -> (r: HttpReply)
    ensures
        spec_find(posts@, query_title@) matches Some(p) ==> r.status == 200 && r.content_html
            && r.body@ == post_html(
            "Blog"@,
            p.title@,
            dec_str(p.date_published as int),
            p.content@,
        ),
        spec_find(posts@, query_title@) is None ==> r.status == 404 && !r.content_html && r.body@
            == "404 not found"@,
{
    match find(posts, query_title) {
        Ok(p) => {
            let template = PostTemplate {
                title: "Blog".to_owned(),
                post_title: p.title.clone(),
                post_date: i64_to_string(p.date_published),
                post_body: p.content.clone(),
            };
            let html = template.render();
            HttpReply { status: 200, content_html: true, body: html }
        },
        Err(_) => HttpReply {
            status: 404,
            content_html: false,
            body: "404 not found".to_owned(),
        },
    }
}

/// The home route: answer 200 with the rendered home page, which lists the
/// title of every post in collection order.
pub fn index(posts: &Vec<BlogPost>) -> (r: HttpReply)
    ensures
        r.status == 200,
        r.content_html,
        r.body@ == home_html("Home"@, titles_of(posts@)),
{
    let mut plinks: Vec<String> = Vec::new();
    let n = posts.len();
    let mut i: usize = 0;
    while i < n
        invariant
            n == posts@.len(),
            i <= n,
            plinks@ == titles_of(posts@.take(i as int)),
        decreases n - i,
    {
        plinks.push(posts[i].title.clone());
        proof {
            assert(titles_of(posts@.take(i + 1)) =~= titles_of(posts@.take(i as int)).push(
                posts@[i as int].title,
            ));
        }
        i = i + 1;
    }
    proof {
        assert(posts@.take(n as int) =~= posts@);
    }
    let template = IndexTemplate { title: "Home".to_owned(), index_links: plinks };
    let html = template.render();
    HttpReply { status: 200, content_html: true, body: html }
}

} // verus!
