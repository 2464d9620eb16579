//! The page's components: each turns content into a markup tree.
use vstd::prelude::*;
use crate::content::{
    is_well_formed_path, CreditLine, CreditModel, PostModel, PostReference, ProfileInfo, ProfileModel, Site, SiteModel,
};
use crate::markup::{attrs_model, attr, Attr, element, html, render, text, void_element, Markup, Node};

verus! {

/// A `class` attribute.
pub open spec fn class_of(value: Seq<char>) -> (Seq<char>, Seq<char>) {
    ("class"@, value)
}

/// The class of the page's links.
pub open spec fn link_class() -> Seq<char> {
    "text-blue-600 hover:underline"@
}

/// A link that opens `href` in a new tab and reads `label`.
pub open spec fn outward_link(href: Seq<char>, label: Seq<char>) -> Markup {
    Markup::Element {
        tag: "a"@,
        attrs: seq![("href"@, href), ("target"@, "_blank"@), class_of(link_class())],
        children: seq![Markup::Text { text: label }],
    }
}

/// The photo, with the name as a heading and the title below it.
pub open spec fn profile_markup(p: ProfileModel) -> Markup {
    Markup::Element {
        tag: "div"@,
        attrs: seq![class_of("flex items-center"@)],
        children: seq![
            Markup::Void {
                tag: "img"@,
                attrs: seq![class_of("rounded-full w-32 h-32"@), ("src"@, p.photo_path)],
            },
            Markup::Element {
                tag: "p"@,
                attrs: seq![class_of("align-super p-3 font-medium"@)],
                children: seq![
                    Markup::Element {
                        tag: "h1"@,
                        attrs: seq![class_of("text-3xl"@)],
                        children: seq![Markup::Text { text: p.name }],
                    },
                    Markup::Text { text: p.title },
                ],
            },
        ],
    }
}

/// The sentence that names the framework and links to the source.
pub open spec fn footer_markup(c: CreditModel) -> Markup {
    Markup::Element {
        tag: "div"@,
        attrs: Seq::empty(),
        children: seq![
            Markup::Text { text: "This webpage was built using "@ },
            outward_link(c.framework_url, c.framework_name),
            Markup::Text { text: " and the source is available on "@ },
            outward_link(c.repo_url, "Github"@),
            Markup::Text { text: "."@ },
        ],
    }
}

/// The introduction: the profile, then the credit line.
pub open spec fn intro_markup(p: ProfileModel, c: CreditModel) -> Seq<Markup> {
    seq![profile_markup(p), footer_markup(c)]
}

/// A link that reads `Blog` and points at `href`.
pub open spec fn blog_markup(href: Seq<char>) -> Markup {
    Markup::Element {
        tag: "a"@,
        attrs: seq![("href"@, href), class_of(link_class())],
        children: seq![Markup::Text { text: "Blog"@ }],
    }
}

/// A frame that shows `embed_path`.
pub open spec fn posts_markup(embed_path: Seq<char>) -> Markup {
    Markup::Element {
        tag: "iframe"@,
        attrs: seq![("height"@, "1000"@), ("width"@, "1000"@), ("src"@, embed_path)],
        children: Seq::empty(),
    }
}

/// The posts panel of a reference.
pub open spec fn post_markup(r: PostModel) -> Markup {
    match r {
        PostModel::Link { href } => blog_markup(href),
        PostModel::Embed { embed_path } => posts_markup(embed_path),
    }
}

/// The whole page: the introduction, then the posts, in one container.
pub open spec fn page_markup(s: SiteModel) -> Markup {
    Markup::Element {
        tag: "div"@,
        attrs: seq![class_of("p-1"@)],
        children: intro_markup(s.profile, s.credit).push(post_markup(s.post)),
    }
}

fn outward_link_node(href: &str, label: &str) -> (r: Node)
    ensures
        r@ == outward_link(href@, label@),
{
    let attrs = vec![
        attr("href", href),
        attr("target", "_blank"),
        attr("class", "text-blue-600 hover:underline"),
    ];
    assert(attrs_model(attrs@) =~= seq![
        ("href"@, href@),
        ("target"@, "_blank"@),
        class_of(link_class()),
    ]);
    let cs = vec![text(label)];
    assert(cs@.map_values(|n: Node| n@) =~= seq![Markup::Text { text: label@ }]);
    let r = element("a", attrs, cs);
    assert(r@ =~~= outward_link(href@, label@));
    r
}

fn profile_node(p: &ProfileInfo) -> (r: Node)
    ensures
        r@ == profile_markup(p@),
{
    let img_attrs = vec![attr("class", "rounded-full w-32 h-32"), attr("src", p.photo_path.as_str())];
    assert(attrs_model(img_attrs@) =~= seq![
        class_of("rounded-full w-32 h-32"@),
        ("src"@, p.photo_path@),
    ]);
    let img = void_element("img", img_attrs);
    let h1_attrs = vec![attr("class", "text-3xl")];
    assert(attrs_model(h1_attrs@) =~= seq![class_of("text-3xl"@)]);
    let h1_children = vec![text(p.name.as_str())];
    assert(h1_children@.map_values(|n: Node| n@) =~= seq![Markup::Text { text: p.name@ }]);
    let heading = element("h1", h1_attrs, h1_children);
    let p_attrs = vec![attr("class", "align-super p-3 font-medium")];
    assert(attrs_model(p_attrs@) =~= seq![class_of("align-super p-3 font-medium"@)]);
    let ghost heading_model = heading@;
    let p_children = vec![heading, text(p.title.as_str())];
    assert(p_children@.map_values(|n: Node| n@) =~= seq![
        heading_model,
        Markup::Text { text: p.title@ },
    ]);
    let caption = element("p", p_attrs, p_children);
    let div_attrs = vec![attr("class", "flex items-center")];
    assert(attrs_model(div_attrs@) =~= seq![class_of("flex items-center"@)]);
    let ghost img_model = img@;
    let ghost caption_model = caption@;
    let div_children = vec![img, caption];
    assert(div_children@.map_values(|n: Node| n@) =~= seq![img_model, caption_model]);
    let r = element("div", div_attrs, div_children);
    assert(r@ =~~= profile_markup(p@));
    r
}

/// The credit line: the framework the page is built with and a link to its source.
pub fn Footer(credit: &CreditLine) -> (r: Node)
    ensures
        r@ == footer_markup(credit@),
{
    let children = vec![
        text("This webpage was built using "),
        outward_link_node(credit.framework_url.as_str(), credit.framework_name.as_str()),
        text(" and the source is available on "),
        outward_link_node(credit.repo_url.as_str(), "Github"),
        text("."),
    ];
    assert(children@.map_values(|n: Node| n@) =~= footer_markup(credit@)->children);
    let none: Vec<Attr> = Vec::new();
    assert(attrs_model(none@) =~= Seq::empty());
    let r = element("div", none, children);
    assert(r@ =~~= footer_markup(credit@));
    r
}

/// The introduction: the profile block, then the credit line.
pub fn Intro(profile: &ProfileInfo, credit: &CreditLine) -> (r: Vec<Node>)
    ensures
        r@.map_values(|n: Node| n@) == intro_markup(profile@, credit@),
{
    let r = vec![profile_node(profile), Footer(credit)];
    assert(r@.map_values(|n: Node| n@) =~~= intro_markup(profile@, credit@));
    r
}

/// A link to the separately built blog at `href`.
pub fn Blog(href: &str) -> (r: Node)
    ensures
        r@ == blog_markup(href@),
{
    let attrs = vec![attr("href", href), attr("class", "text-blue-600 hover:underline")];
    assert(attrs@.len() == 2);
    assert(attrs@[0].name@ == "href"@);
    assert(attrs_model(attrs@) =~= seq![("href"@, href@), class_of(link_class())]);
    let cs = vec![text("Blog")];
    assert(cs@.map_values(|n: Node| n@) =~= seq![Markup::Text { text: "Blog"@ }]);
    let r = element("a", attrs, cs);
    assert(r@ =~~= blog_markup(href@));
    r
}

/// A frame that shows the pre-rendered post at `embed_path`.
pub fn Posts(embed_path: &str) -> (r: Node)
    ensures
        r@ == posts_markup(embed_path@),
{
    let attrs = vec![attr("height", "1000"), attr("width", "1000"), attr("src", embed_path)];
    assert(attrs_model(attrs@) =~= seq![
        ("height"@, "1000"@),
        ("width"@, "1000"@),
        ("src"@, embed_path@),
    ]);
    let cs: Vec<Node> = Vec::new();
    assert(cs@.map_values(|n: Node| n@) =~= Seq::<Markup>::empty());
    let r = element("iframe", attrs, cs);
    assert(r@ =~~= posts_markup(embed_path@));
    r
}

/// The posts panel that `post` calls for: a link or a frame.
pub fn PostPanel(post: &PostReference) -> (r: Node)
    ensures
        r@ == post_markup(post@),
{
    match post {
        PostReference::Link { href } => Blog(href.as_str()),
        PostReference::Embed { embed_path } => Posts(embed_path.as_str()),
    }
}

/// The whole page.
pub fn App(site: &Site) -> (r: Node)
    ensures
        r@ == page_markup(site@),
{
    let mut children = Intro(&site.profile, &site.credit);
    let ghost intro = children@;
    let post = PostPanel(&site.post);
    let ghost post_model = post@;
    children.push(post);
    assert(children@.map_values(|n: Node| n@) =~= intro.map_values(|n: Node| n@).push(post_model));
    let attrs = vec![attr("class", "p-1")];
    assert(attrs_model(attrs@) =~= seq![class_of("p-1"@)]);
    let r = element("div", attrs, children);
    assert(r@ =~~= page_markup(site@));
    r
}

/// The HTML text of the whole page.
pub fn render_page(site: &Site) -> (r: String)
    ensures
        r@ == html(page_markup(site@)),
{
    render(&App(site))
}

/// The profile block of an introduction: an element whose class is
/// `flex items-center`.
pub open spec fn is_profile_block(m: Markup) -> bool {
    m is Element && m->Element_tag == "div"@ && m->Element_attrs == seq![
        class_of("flex items-center"@),
    ]
}

/// The credit block: a `div` without attributes.
pub open spec fn is_footer_block(m: Markup) -> bool {
    m is Element && m->Element_tag == "div"@ && m->Element_attrs.len() == 0
}

/// A posts panel: a link to the blog or a frame.
pub open spec fn is_posts_block(m: Markup) -> bool {
    m is Element && (m->Element_tag == "a"@ || m->Element_tag == "iframe"@)
}

/// The heading text of a profile block.
pub open spec fn heading_text(block: Markup) -> Seq<char> {
    block->Element_children[1]->Element_children[0]->Element_children[0]->Text_text
}

/// The text under the heading of a profile block.
pub open spec fn subtitle_text(block: Markup) -> Seq<char> {
    block->Element_children[1]->Element_children[1]->Text_text
}

/// The value of the first attribute named `name`, if any.
pub open spec fn attr_value(attrs: Seq<(Seq<char>, Seq<char>)>, name: Seq<char>) -> Option<
    Seq<char>,
>
    decreases attrs.len(),
{
    if attrs.len() == 0 {
        None
    } else if attrs[0].0 == name {
        Some(attrs[0].1)
    } else {
        attr_value(attrs.drop_first(), name)
    }
}

/// The attribute through which a posts panel points at its target.
pub open spec fn pointer_name(r: PostModel) -> Seq<char> {
    match r {
        PostModel::Link { .. } => "href"@,
        PostModel::Embed { .. } => "src"@,
    }
}

/// The page holds, in this order, exactly one profile block, one credit
/// block and one posts panel, and nothing else.
pub proof fn lemma_page_panels(s: SiteModel)
    ensures
        ({
            let cs = page_markup(s)->Element_children;
            &&& cs.len() == 3
            &&& cs[0] == profile_markup(s.profile)
            &&& cs[1] == footer_markup(s.credit)
            &&& cs[2] == post_markup(s.post)
            &&& forall|i: int| 0 <= i < 3 ==> (is_profile_block(#[trigger] cs[i]) <==> i == 0)
            &&& forall|i: int| 0 <= i < 3 ==> (is_footer_block(#[trigger] cs[i]) <==> i == 1)
            &&& forall|i: int| 0 <= i < 3 ==> (is_posts_block(#[trigger] cs[i]) <==> i == 2)
        }),
{
    reveal_strlit("div");
    reveal_strlit("a");
    reveal_strlit("iframe");
    let cs = page_markup(s)->Element_children;
    assert(cs =~= seq![profile_markup(s.profile), footer_markup(s.credit), post_markup(s.post)]);
    assert(is_profile_block(cs[0]));
    assert(is_footer_block(cs[1]));
    assert(is_posts_block(cs[2]));
    assert("div"@.len() == 3 && "a"@.len() == 1 && "iframe"@.len() == 6);
    assert(!is_posts_block(cs[0]) && !is_posts_block(cs[1]));
    assert(!is_footer_block(cs[0]));
    assert(!is_profile_block(cs[1]));
}

/// The introduction of a profile whose name and title are not empty shows
/// that name as its heading and that title below it, neither of them empty.
pub proof fn lemma_intro_texts(p: ProfileModel, c: CreditModel)
    requires
        p.wf(),
    ensures
        is_profile_block(intro_markup(p, c)[0]),
        heading_text(intro_markup(p, c)[0]) == p.name,
        subtitle_text(intro_markup(p, c)[0]) == p.title,
        heading_text(intro_markup(p, c)[0]).len() > 0,
        subtitle_text(intro_markup(p, c)[0]).len() > 0,
{
}

/// A posts panel points, through its `href` or `src` attribute, at the
/// reference's target.
pub proof fn lemma_posts_target(r: PostModel)
    ensures
        attr_value(post_markup(r)->Element_attrs, pointer_name(r)) == Some(r.target()),
{
    reveal_strlit("href");
    reveal_strlit("src");
    reveal_strlit("height");
    reveal_strlit("width");
    reveal_with_fuel(attr_value, 3);
    let attrs = post_markup(r)->Element_attrs;
    match r {
        PostModel::Link { href } => {
            assert(attrs[0].0 == "href"@);
        },
        PostModel::Embed { embed_path } => {
            assert("height"@.len() == 6 && "width"@.len() == 5 && "src"@.len() == 3);
            assert(attrs[0].0 != "src"@);
            assert(attrs.drop_first()[0].0 != "src"@);
            assert(attrs.drop_first().drop_first()[0] == ("src"@, embed_path));
        },
    }
}

/// On a page with well-formed content, the posts panel points at a
/// well-formed path.
pub proof fn lemma_page_posts_path(s: SiteModel)
    requires
        s.wf(),
    ensures
        attr_value(
            page_markup(s)->Element_children[2]->Element_attrs,
            pointer_name(s.post),
        ) matches Some(path) && is_well_formed_path(path),
{
    lemma_page_panels(s);
    lemma_posts_target(s.post);
}

/// Pages with the same content have the same text: rendering depends on the
/// content alone.
pub proof fn lemma_render_deterministic(a: SiteModel, b: SiteModel)
    requires
        a == b,
    ensures
        html(page_markup(a)) == html(page_markup(b)),
{
}

} // verus!
