use website::canvas::{App as CanvasApp, Span};
use website::components::{render_page, App, Blog, Footer, Intro, PostPanel, Posts};
use website::content::{
    blog_link, credit, post_embed, profile, site, well_formed_path, CreditLine, PostReference,
    ProfileInfo,
};
use website::markup::{attr, element, push_escaped, render, text, void_element, Node};

const PROFILE_HTML: &str = "<div class=\"flex items-center\"><img class=\"rounded-full w-32 h-32\" src=\"assets/profile_pic.jpeg\"><p class=\"align-super p-3 font-medium\"><h1 class=\"text-3xl\">Jason Allen</h1>Backend software dev</p></div>";
const FOOTER_HTML: &str = "<div>This webpage was built using <a href=\"https://github.com/leptos-rs/leptos\" target=\"_blank\" class=\"text-blue-600 hover:underline\">Leptos</a> and the source is available on <a href=\"https://github.com/jallen02/website\" target=\"_blank\" class=\"text-blue-600 hover:underline\">Github</a>.</div>";
const BLOG_HTML: &str = "<a href=\"book/index.html\" class=\"text-blue-600 hover:underline\">Blog</a>";

fn children_of(n: &Node) -> &Vec<Node> {
    match n {
        Node::Element { children, .. } => children,
        _ => panic!("not an element"),
    }
}

#[test]
fn intro_heading_and_subtitle() {
    let p = ProfileInfo::new("Jason Allen", "Backend software dev", "assets/profile_pic.jpeg")
        .unwrap();
    let intro = Intro(&p, &credit());
    assert_eq!(intro.len(), 2);
    let caption = &children_of(&intro[0])[1];
    let heading = &children_of(caption)[0];
    match &children_of(heading)[0] {
        Node::Text { text } => assert_eq!(text, "Jason Allen"),
        _ => panic!("heading is not text"),
    }
    match &children_of(caption)[1] {
        Node::Text { text } => assert_eq!(text, "Backend software dev"),
        _ => panic!("subtitle is not text"),
    }
    assert_eq!(render(&intro[0]), PROFILE_HTML);
}

#[test]
fn posts_frame_source_is_embed_path() {
    let frame = Posts("assets/posts/2023-02-04.html");
    match &frame {
        Node::Element { tag, attrs, children } => {
            assert_eq!(tag, "iframe");
            assert!(children.is_empty());
            let src: Vec<&String> =
                attrs.iter().filter(|a| a.name == "src").map(|a| &a.value).collect();
            assert_eq!(src, vec!["assets/posts/2023-02-04.html"]);
        }
        _ => panic!("not an element"),
    }
    assert_eq!(
        render(&frame),
        "<iframe height=\"1000\" width=\"1000\" src=\"assets/posts/2023-02-04.html\"></iframe>"
    );
    assert_eq!(render(&PostPanel(&post_embed())), render(&frame));
}

#[test]
fn page_holds_intro_credit_and_blog_in_order() {
    let page = App(&site());
    let cs = children_of(&page);
    assert_eq!(cs.len(), 3);
    assert_eq!(render(&cs[0]), PROFILE_HTML);
    assert_eq!(render(&cs[1]), FOOTER_HTML);
    assert_eq!(render(&cs[2]), BLOG_HTML);
    let expected = format!("<div class=\"p-1\">{}{}{}</div>", PROFILE_HTML, FOOTER_HTML, BLOG_HTML);
    assert_eq!(render_page(&site()), expected);
}

#[test]
fn profile_texts_are_not_empty() {
    let p = profile();
    assert!(!p.name.is_empty());
    assert!(!p.title.is_empty());
    assert!(ProfileInfo::new("", "Backend software dev", "x.jpeg").is_none());
    assert!(ProfileInfo::new("Jason Allen", "", "x.jpeg").is_none());
    let q = ProfileInfo::new("A", "B", "").unwrap();
    assert_eq!(q.name, "A");
    assert_eq!(q.title, "B");
    assert_eq!(q.photo_path, "");
}

#[test]
fn post_references_are_well_formed_paths() {
    assert!(well_formed_path(blog_link().target()));
    assert!(well_formed_path(post_embed().target()));
    assert!(well_formed_path("https://github.com/jallen02/website"));
    assert!(!well_formed_path(""));
    assert!(!well_formed_path("book/my index.html"));
    assert!(!well_formed_path("a\"b"));
    assert!(!well_formed_path("a<b"));
    assert!(!well_formed_path("caf\u{e9}.html"));
    assert!(PostReference::link("").is_none());
    assert!(PostReference::embed("posts/a b.html").is_none());
    let r = PostReference::link("book/index.html").unwrap();
    assert_eq!(r.target(), "book/index.html");
    match PostReference::embed("assets/posts/2023-02-04.html").unwrap() {
        PostReference::Embed { embed_path } => assert_eq!(embed_path, "assets/posts/2023-02-04.html"),
        _ => panic!("expected an embed"),
    }
}

#[test]
fn rendering_twice_gives_the_same_text() {
    let first = render_page(&site());
    let second = render_page(&site());
    assert_eq!(first, second);
    assert_eq!(render(&App(&site())), first);
}

#[test]
fn text_and_attribute_values_are_escaped() {
    let n = element(
        "span",
        vec![attr("title", "say \"hi\" & <bye>")],
        vec![text("1 < 2 && 3 > 2")],
    );
    assert_eq!(
        render(&n),
        "<span title=\"say &quot;hi&quot; &amp; &lt;bye&gt;\">1 &lt; 2 &amp;&amp; 3 &gt; 2</span>"
    );
    let mut out = String::from("x");
    push_escaped(&mut out, "a&b");
    assert_eq!(out, "xa&amp;b");
}

#[test]
fn void_and_empty_elements() {
    assert_eq!(render(&void_element("br", vec![])), "<br>");
    assert_eq!(render(&element("div", vec![], vec![])), "<div></div>");
    assert_eq!(render(&text("")), "");
}

#[test]
fn blog_link_points_at_href() {
    assert_eq!(render(&Blog("book/index.html")), BLOG_HTML);
    assert_eq!(render(&PostPanel(&blog_link())), BLOG_HTML);
}

#[test]
fn footer_names_framework_and_repo() {
    let c = CreditLine::new("Yew", "https://yew.rs", "https://example.org/repo");
    assert_eq!(
        render(&Footer(&c)),
        "<div>This webpage was built using <a href=\"https://yew.rs\" target=\"_blank\" class=\"text-blue-600 hover:underline\">Yew</a> and the source is available on <a href=\"https://example.org/repo\" target=\"_blank\" class=\"text-blue-600 hover:underline\">Github</a>.</div>"
    );
}

#[test]
fn canvas_layout_has_credit_on_top_and_author_below() {
    let layout = CanvasApp::new().layout();
    assert_eq!(layout.top.len(), 6);
    match &layout.top[1] {
        Span::Link { text, url } => {
            assert_eq!(text, "egui");
            assert_eq!(url, "https://github.com/emilk/egui");
        }
        _ => panic!("expected a link"),
    }
    match &layout.top[5] {
        Span::Link { text, url } => {
            assert_eq!(text, "github");
            assert_eq!(url, "https://github.com/jallen02/website");
        }
        _ => panic!("expected a link"),
    }
    assert_eq!(layout.bottom.len(), 1);
    match &layout.bottom[0] {
        Span::Label { text } => assert_eq!(text, "Written by Jason Allen - jason@jallen.info"),
        _ => panic!("expected a label"),
    }
}
