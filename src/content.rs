//! The page's content, kept apart from how it is presented.
use vstd::prelude::*;

verus! {

/// A character that may stand in a path or URL as the page writes them:
/// printable ASCII other than space and the characters that would have to
/// be quoted inside markup or a URL.
pub open spec fn is_path_char(c: char) -> bool {
    &&& '!' <= c <= '~'
    &&& c != '"'
    &&& c != '<'
    &&& c != '>'
    &&& c != '\\'
    &&& c != '`'
    &&& c != '{'
    &&& c != '}'
    &&& c != '|'
    &&& c != '^'
}

/// Every character of `s` is a path character.
pub open spec fn all_path_chars(s: Seq<char>) -> bool
    decreases s.len(),
{
    s.len() == 0 || (is_path_char(s[0]) && all_path_chars(s.drop_first()))
}

/// A non-empty relative path or URL made of path characters only.
pub open spec fn is_well_formed_path(s: Seq<char>) -> bool {
    s.len() > 0 && all_path_chars(s)
}

proof fn lemma_all_path_chars(s: Seq<char>)
    ensures
        all_path_chars(s) <==> forall|i: int| 0 <= i < s.len() ==> is_path_char(#[trigger] s[i]),
    decreases s.len(),
{
    if s.len() > 0 {
        lemma_all_path_chars(s.drop_first());
        if all_path_chars(s) {
            assert forall|i: int| 0 <= i < s.len() implies is_path_char(#[trigger] s[i]) by {
                if i > 0 {
                    assert(s[i] == s.drop_first()[i - 1]);
                }
            }
        }
        if forall|i: int| 0 <= i < s.len() ==> is_path_char(#[trigger] s[i]) {
            assert(is_path_char(s[0]));
            assert forall|i: int| 0 <= i < s.drop_first().len() implies is_path_char(
                #[trigger] s.drop_first()[i],
            ) by {
                assert(s.drop_first()[i] == s[i + 1]);
            }
        }
    }
}

fn path_char(c: char) -> (r: bool)
    ensures
        r == is_path_char(c),
{
    '!' <= c && c <= '~' && c != '"' && c != '<' && c != '>' && c != '\\' && c != '`' && c != '{'
        && c != '}' && c != '|' && c != '^'
}

/// Whether `s` is a non-empty relative path or URL made of path characters.
pub fn well_formed_path(s: &str) -> (r: bool)
    ensures
        r == is_well_formed_path(s@),
{
    proof {
        lemma_all_path_chars(s@);
    }
    let mut ok = true;
    for c in it: s.chars()
        invariant
            it.seq() == s@,
            ok == forall|i: int| 0 <= i < it.index() ==> is_path_char(#[trigger] s@[i]),
    {
        ok = ok && path_char(c);
    }
    !s.is_empty() && ok
}

/// Who the page introduces: a name, a one-line title, and a photo.
pub struct ProfileInfo {
    pub name: String,
    pub title: String,
    pub photo_path: String,
}

pub ghost struct ProfileModel {
    pub name: Seq<char>,
    pub title: Seq<char>,
    pub photo_path: Seq<char>,
}

impl View for ProfileInfo {
    type V = ProfileModel;

    open spec fn view(&self) -> ProfileModel {
        ProfileModel { name: self.name@, title: self.title@, photo_path: self.photo_path@ }
    }
}

impl ProfileModel {
    /// The name and the title are not empty.
    pub open spec fn wf(self) -> bool {
        self.name.len() > 0 && self.title.len() > 0
    }
}

impl ProfileInfo {
    /// A profile from its parts; `None` where the name or the title is empty.
    pub fn new(name: &str, title: &str, photo_path: &str) -> (r: Option<ProfileInfo>)
        ensures
            r is Some <==> (name@.len() > 0 && title@.len() > 0),
            r matches Some(p) ==> p@ == (ProfileModel {
                name: name@,
                title: title@,
                photo_path: photo_path@,
            }),
            r matches Some(p) ==> p@.wf(),
    {
        if name.is_empty() || title.is_empty() {
            None
        } else {
            Some(
                ProfileInfo {
                    name: String::from_str(name),
                    title: String::from_str(title),
                    photo_path: String::from_str(photo_path),
                },
            )
        }
    }
}

/// The credit line: the technology the page is built with, and where its
/// source can be read.
pub struct CreditLine {
    pub framework_name: String,
    pub framework_url: String,
    pub repo_url: String,
}

pub ghost struct CreditModel {
    pub framework_name: Seq<char>,
    pub framework_url: Seq<char>,
    pub repo_url: Seq<char>,
}

impl View for CreditLine {
    type V = CreditModel;

    open spec fn view(&self) -> CreditModel {
        CreditModel {
            framework_name: self.framework_name@,
            framework_url: self.framework_url@,
            repo_url: self.repo_url@,
        }
    }
}

impl CreditLine {
    /// A credit line from its parts.
    pub fn new(framework_name: &str, framework_url: &str, repo_url: &str) -> (r: CreditLine)
        ensures
            r@ == (CreditModel {
                framework_name: framework_name@,
                framework_url: framework_url@,
                repo_url: repo_url@,
            }),
    {
        CreditLine {
            framework_name: String::from_str(framework_name),
            framework_url: String::from_str(framework_url),
            repo_url: String::from_str(repo_url),
        }
    }
}

/// Where the page points for posts: a link to a separately built blog, or a
/// pre-rendered post shown in a frame.
pub enum PostReference {
    Link { href: String },
    Embed { embed_path: String },
}

pub ghost enum PostModel {
    Link { href: Seq<char> },
    Embed { embed_path: Seq<char> },
}

impl View for PostReference {
    type V = PostModel;

    open spec fn view(&self) -> PostModel {
        match self {
            PostReference::Link { href } => PostModel::Link { href: href@ },
            PostReference::Embed { embed_path } => PostModel::Embed { embed_path: embed_path@ },
        }
    }
}

impl PostModel {
    /// The path that the reference points at.
    pub open spec fn target(self) -> Seq<char> {
        match self {
            PostModel::Link { href } => href,
            PostModel::Embed { embed_path } => embed_path,
        }
    }

    /// The target is a well-formed path.
    pub open spec fn wf(self) -> bool {
        is_well_formed_path(self.target())
    }
}

impl PostReference {
    /// A link to `href`; `None` where `href` is not a well-formed path.
    pub fn link(href: &str) -> (r: Option<PostReference>)
        ensures
            r is Some <==> is_well_formed_path(href@),
            r matches Some(p) ==> p@ == (PostModel::Link { href: href@ }),
    {
        if well_formed_path(href) {
            Some(PostReference::Link { href: String::from_str(href) })
        } else {
            None
        }
    }

    /// A frame showing `embed_path`; `None` where it is not a well-formed path.
    pub fn embed(embed_path: &str) -> (r: Option<PostReference>)
        ensures
            r is Some <==> is_well_formed_path(embed_path@),
            r matches Some(p) ==> p@ == (PostModel::Embed { embed_path: embed_path@ }),
    {
        if well_formed_path(embed_path) {
            Some(PostReference::Embed { embed_path: String::from_str(embed_path) })
        } else {
            None
        }
    }

    /// The path that the reference points at.
    pub fn target(&self) -> (r: &str)
        ensures
            r@ == self@.target(),
    {
        match self {
            PostReference::Link { href } => href.as_str(),
            PostReference::Embed { embed_path } => embed_path.as_str(),
        }
    }
}


/// Everything the page shows.
pub struct Site {
    pub profile: ProfileInfo,
    pub credit: CreditLine,
    pub post: PostReference,
}

pub ghost struct SiteModel {
    pub profile: ProfileModel,
    pub credit: CreditModel,
    pub post: PostModel,
}

impl View for Site {
    type V = SiteModel;

    open spec fn view(&self) -> SiteModel {
        SiteModel { profile: self.profile@, credit: self.credit@, post: self.post@ }
    }
}

impl SiteModel {
    /// The profile's name and title are not empty and the post reference is a
    /// well-formed path.
    pub open spec fn wf(self) -> bool {
        self.profile.wf() && self.post.wf()
    }
}

/// The profile of the page's author.
pub fn profile() -> (r: ProfileInfo)
    ensures
        r@ == (ProfileModel {
            name: "Jason Allen"@,
            title: "Backend software dev"@,
            photo_path: "assets/profile_pic.jpeg"@,
        }),
        r@.wf(),
{
    proof {
        reveal_strlit("Jason Allen");
        reveal_strlit("Backend software dev");
    }
    ProfileInfo {
        name: String::from_str("Jason Allen"),
        title: String::from_str("Backend software dev"),
        photo_path: String::from_str("assets/profile_pic.jpeg"),
    }
}

/// The credit line of the component-framework page.
pub fn credit() -> (r: CreditLine)
    ensures
        r@ == (CreditModel {
            framework_name: "Leptos"@,
            framework_url: "https://github.com/leptos-rs/leptos"@,
            repo_url: "https://github.com/jallen02/website"@,
        }),
{
    CreditLine::new(
        "Leptos",
        "https://github.com/leptos-rs/leptos",
        "https://github.com/jallen02/website",
    )
}

/// The link to the separately built blog.
pub fn blog_link() -> (r: PostReference)
    ensures
        r@ == (PostModel::Link { href: "book/index.html"@ }),
        r@.wf(),
{
    proof {
        reveal_strlit("book/index.html");
        reveal_with_fuel(all_path_chars, 16);
    }
    PostReference::Link { href: String::from_str("book/index.html") }
}

/// The pre-rendered post that the page can show in a frame.
pub fn post_embed() -> (r: PostReference)
    ensures
        r@ == (PostModel::Embed { embed_path: "assets/posts/2023-02-04.html"@ }),
        r@.wf(),
{
    proof {
        reveal_strlit("assets/posts/2023-02-04.html");
        reveal_with_fuel(all_path_chars, 29);
    }
    PostReference::Embed { embed_path: String::from_str("assets/posts/2023-02-04.html") }
}

/// The page as published: the author's profile, the credit line, and the
/// link to the blog.
pub fn site() -> (r: Site)
    ensures
        r@ == (SiteModel {
            profile: ProfileModel {
                name: "Jason Allen"@,
                title: "Backend software dev"@,
                photo_path: "assets/profile_pic.jpeg"@,
            },
            credit: CreditModel {
                framework_name: "Leptos"@,
                framework_url: "https://github.com/leptos-rs/leptos"@,
                repo_url: "https://github.com/jallen02/website"@,
            },
            post: PostModel::Link { href: "book/index.html"@ },
        }),
        r@.wf(),
{
    Site { profile: profile(), credit: credit(), post: blog_link() }
}

} // verus!
