use vstd::prelude::*;
use vstd::string::StringExecFns;

use crate::escape::escape_seq;
use crate::escape::escape_str;

verus! {

/// What one character becomes under the dash filter: a dash turns into a
/// space, every other character stays.
pub open spec fn rmdash_char(c: char) -> char {
    if c == '-' {
        ' '
    } else {
        c
    }
}

/// The dash filter applied to a whole character sequence.
pub open spec fn rmdash_seq(s: Seq<char>) -> Seq<char> {
    s.map_values(|c: char| rmdash_char(c))
}

/// Template filter: replace every dash in a title with a space.
pub fn rmdashes(title: &str) -> (r: String)
    ensures
        r@ == rmdash_seq(title@),
{
    let n = title.unicode_len();
    let mut out = String::new();
    let mut i: usize = 0;
    while i < n
        invariant
            n == title@.len(),
            i <= n,
            out@ == rmdash_seq(title@.take(i as int)),
        decreases n - i,
    {
        let c = title.get_char(i);
        if c == '-' {
            out.push(' ');
        } else {
            out.push(c);
        }
        proof {
            assert(rmdash_seq(title@.take(i + 1)) =~= rmdash_seq(title@.take(i as int)).push(
                rmdash_char(title@[i as int]),
            ));
        }
        i = i + 1;
    }
    proof {
        assert(title@.take(n as int) =~= title@);
    }
    out
}

/// One entry of the home page's list of links: a list item whose anchor
/// points at the post route for the title and shows the title itself.
pub open spec fn home_item(t: Seq<char>) -> Seq<char> {
    "<li><a href=\"/post/"@ + escape_seq(t) + "\">"@ + escape_seq(t) + "</a></li>"@
}

/// The home page's list body: one entry per link, in the links' order and
/// nothing besides.
pub open spec fn home_items(links: Seq<String>) -> Seq<char>
    decreases links.len(),
{
    if links.len() == 0 {
        Seq::empty()
    } else {
        home_items(links.drop_last()) + home_item(links.last()@)
    }
}

/// Everything of the home page that precedes the list of links.
pub open spec fn home_prefix(title: Seq<char>) -> Seq<char> {
    "<!DOCTYPE html><html><head><title>"@ + escape_seq(title) + "</title></head><body><h1>"@
        + escape_seq(title) + "</h1><ul>"@
}

/// The complete home page document for a page title and a list of post
/// titles.
pub open spec fn home_html(title: Seq<char>, links: Seq<String>) -> Seq<char> {
    home_prefix(title) + home_items(links) + "</ul></body></html>"@
}

/// The complete post page document for a page title, a post title, a
/// publication date already rendered as text, and the post's body.
pub open spec fn post_html(
    title: Seq<char>,
    post_title: Seq<char>,
    post_date: Seq<char>,
    post_body: Seq<char>,
) -> Seq<char> {
    "<!DOCTYPE html><html><head><title>"@ + escape_seq(title) + "</title></head><body><h1>"@
        + escape_seq(post_title) + "</h1><p class=\"date\">"@ + escape_seq(post_date)
        + "</p><div class=\"content\">"@ + escape_seq(post_body) + "</div></body></html>"@
}

/// The home page view: the page's title and the titles of all posts, used as
/// both link targets and link texts.
pub struct IndexTemplate {
    pub title: String,
    pub index_links: Vec<String>,
}

impl IndexTemplate {
    /// Render the home page. The output lists exactly the given links, in
    /// their order, each escaped by the default HTML text escaping.
    pub fn render(&self) -> (html: String)
        ensures
            html@ == home_html(self.title@, self.index_links@),
    {
        let mut out = String::new();
        out.append("<!DOCTYPE html><html><head><title>");
        let e1 = escape_str(self.title.as_str());
        out.append(e1.as_str());
        out.append("</title></head><body><h1>");
        let e2 = escape_str(self.title.as_str());
        out.append(e2.as_str());
        out.append("</h1><ul>");
        proof {
            assert(out@ =~= home_prefix(self.title@) + home_items(self.index_links@.take(0)));
        }
        let n = self.index_links.len();
        let mut i: usize = 0;
        while i < n
            invariant
                n == self.index_links@.len(),
                i <= n,
                out@ == home_prefix(self.title@) + home_items(self.index_links@.take(i as int)),
            decreases n - i,
        {
            out.append("<li><a href=\"/post/");
            let et = escape_str(self.index_links[i].as_str());
            out.append(et.as_str());
            out.append("\">");
            out.append(et.as_str());
            out.append("</a></li>");
            proof {
                assert(self.index_links@.take(i + 1).drop_last() =~= self.index_links@.take(
                    i as int,
                ));
                assert(self.index_links@.take(i + 1).last() == self.index_links@[i as int]);
                assert(out@ =~= home_prefix(self.title@) + home_items(
                    self.index_links@.take(i + 1),
                ));
            }
            i = i + 1;
        }
        out.append("</ul></body></html>");
        proof {
            assert(self.index_links@.take(n as int) =~= self.index_links@);
            assert(out@ =~= home_html(self.title@, self.index_links@));
        }
        out
    }
}

/// The post page view: the page's title, the post's title, its publication
/// date already rendered as text, and its body.
pub struct PostTemplate {
    pub title: String,
    pub post_title: String,
    pub post_date: String,
    pub post_body: String,
}

impl PostTemplate {
    /// Render the post page. The output embeds the post's title, date text
    /// and full body, each escaped by the default HTML text escaping and
    /// nothing more.
    pub fn render(&self) -> (html: String)
        ensures
            html@ == post_html(self.title@, self.post_title@, self.post_date@, self.post_body@),
    {
        let mut out = String::new();
        out.append("<!DOCTYPE html><html><head><title>");
        let e1 = escape_str(self.title.as_str());
        out.append(e1.as_str());
        out.append("</title></head><body><h1>");
        let e2 = escape_str(self.post_title.as_str());
        out.append(e2.as_str());
        out.append("</h1><p class=\"date\">");
        let e3 = escape_str(self.post_date.as_str());
        out.append(e3.as_str());
        out.append("</p><div class=\"content\">");
        let e4 = escape_str(self.post_body.as_str());
        out.append(e4.as_str());
        out.append("</div></body></html>");
        proof {
            assert(out@ =~= post_html(
                self.title@,
                self.post_title@,
                self.post_date@,
                self.post_body@,
            ));
        }
        out
    }
}

/// The length of the home page's list body up to, but not including, the
/// entry for link `i`.
pub open spec fn home_items_offset(links: Seq<String>, i: int) -> int {
    home_items(links.take(i)).len() as int
}

/// Law: the home page's list body carries one entry per link, at strictly
/// increasing offsets, in the links' order: the entry for link `i` occupies
/// exactly the span from its offset to the next entry's offset.
pub proof fn lemma_home_lists_links_in_order(links: Seq<String>, i: int)
    requires
        0 <= i < links.len(),
    ensures
        ({
            let off = home_items_offset(links, i);
            let item = home_item(links[i]@);
            0 <= off && off + item.len() == home_items_offset(links, i + 1)
                && home_items_offset(links, i + 1) <= home_items(links).len() && home_items(
                links,
            ).subrange(off, off + item.len() as int) == item
        }),
    decreases links.len(),
{
    let off = home_items_offset(links, i);
    let item = home_item(links[i]@);
    let pre = links.drop_last();
    if i == links.len() - 1 {
        assert(links.take(i) =~= pre);
        assert(links.take(i + 1) =~= links);
        assert(home_items(links) == home_items(pre) + home_item(links[i]@));
        assert(home_items(links).subrange(off, off + item.len() as int) =~= item);
    } else {
        lemma_home_lists_links_in_order(pre, i);
        assert(pre.take(i) =~= links.take(i));
        assert(pre.take(i + 1) =~= links.take(i + 1));
        assert(pre[i] == links[i]);
        assert(home_items(links) == home_items(pre) + home_item(links.last()@));
        assert(home_items(links).subrange(off, off + item.len() as int) =~= home_items(
            pre,
        ).subrange(off, off + item.len() as int));
    }
}

/// Law: the home page's list body holds nothing besides those entries: the
/// first entry starts at the very beginning, and the last one ends at the
/// very end.
pub proof fn lemma_home_lists_links_exactly(links: Seq<String>)
    ensures
        home_items_offset(links, 0) == 0,
        home_items_offset(links, links.len() as int) == home_items(links).len(),
{
    assert(links.take(0) =~= Seq::<String>::empty());
    assert(links.take(links.len() as int) =~= links);
}

/// Law: the post page embeds the escaped post title, date text and body,
/// each as one contiguous span at a known offset.
pub proof fn lemma_post_embeds_fields(
    title: Seq<char>,
    post_title: Seq<char>,
    post_date: Seq<char>,
    post_body: Seq<char>,
)
    ensures
        ({
            let html = post_html(title, post_title, post_date, post_body);
            let o1: int = "<!DOCTYPE html><html><head><title>"@.len() as int + escape_seq(title).len()
                + "</title></head><body><h1>"@.len();
            let o2: int = o1 + escape_seq(post_title).len() + "</h1><p class=\"date\">"@.len();
            let o3: int = o2 + escape_seq(post_date).len() + "</p><div class=\"content\">"@.len();
            html.subrange(o1, o1 + escape_seq(post_title).len()) == escape_seq(post_title)
                && html.subrange(o2, o2 + escape_seq(post_date).len()) == escape_seq(post_date)
                && html.subrange(o3, o3 + escape_seq(post_body).len()) == escape_seq(post_body)
        }),
{
    let html = post_html(title, post_title, post_date, post_body);
    let o1: int = "<!DOCTYPE html><html><head><title>"@.len() as int + escape_seq(title).len()
        + "</title></head><body><h1>"@.len();
    let o2: int = o1 + escape_seq(post_title).len() + "</h1><p class=\"date\">"@.len();
    let o3: int = o2 + escape_seq(post_date).len() + "</p><div class=\"content\">"@.len();
    assert(html.subrange(o1, o1 + escape_seq(post_title).len()) =~= escape_seq(post_title));
    assert(html.subrange(o2, o2 + escape_seq(post_date).len()) =~= escape_seq(post_date));
    assert(html.subrange(o3, o3 + escape_seq(post_body).len()) =~= escape_seq(post_body));
}

} // verus!
