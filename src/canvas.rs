//! The immediate-mode canvas page: a credit line of labels and hyperlinks
//! at the top, and the author's line at the bottom.
use vstd::prelude::*;

verus! {

/// One piece of a line on the canvas.
pub enum Span {
    Label { text: String },
    Link { text: String, url: String },
}

pub ghost enum SpanModel {
    Label { text: Seq<char> },
    Link { text: Seq<char>, url: Seq<char> },
}

impl View for Span {
    type V = SpanModel;

    open spec fn view(&self) -> SpanModel {
        match self {
            Span::Label { text } => SpanModel::Label { text: text@ },
            Span::Link { text, url } => SpanModel::Link { text: text@, url: url@ },
        }
    }
}

/// What the canvas shows: a row laid out from the top, and one laid out
/// from the bottom.
pub struct CanvasLayout {
    pub top: Vec<Span>,
    pub bottom: Vec<Span>,
}

pub ghost struct CanvasModel {
    pub top: Seq<SpanModel>,
    pub bottom: Seq<SpanModel>,
}

impl View for CanvasLayout {
    type V = CanvasModel;

    open spec fn view(&self) -> CanvasModel {
        CanvasModel {
            top: self.top@.map_values(|s: Span| s@),
            bottom: self.bottom@.map_values(|s: Span| s@),
        }
    }
}

/// The canvas page: the credit line on top, the author at the bottom.
pub open spec fn canvas_layout() -> CanvasModel {
    CanvasModel {
        top: seq![
            SpanModel::Label { text: "This website is written fully in Rust using "@ },
            SpanModel::Link { text: "egui"@, url: "https://github.com/emilk/egui"@ },
            SpanModel::Label { text: " and "@ },
            SpanModel::Link {
                text: "eframe"@,
                url: "https://github.com/emilk/egui/tree/master/crates/eframe"@,
            },
            SpanModel::Label { text: ". Code used to build is available to inspect on "@ },
            SpanModel::Link { text: "github"@, url: "https://github.com/jallen02/website"@ },
        ],
        bottom: seq![SpanModel::Label { text: "Written by Jason Allen - jason@jallen.info"@ }],
    }
}

fn label(text: &str) -> (r: Span)
    ensures
        r@ == (SpanModel::Label { text: text@ }),
{
    Span::Label { text: String::from_str(text) }
}

fn link(text: &str, url: &str) -> (r: Span)
    ensures
        r@ == (SpanModel::Link { text: text@, url: url@ }),
{
    Span::Link { text: String::from_str(text), url: String::from_str(url) }
}

/// The canvas application. It holds no state: every frame shows the same layout.
pub struct App {}

impl App {
    pub fn new() -> App {
        App {  }
    }

    /// What each frame shows.
    pub fn layout(&self) -> (r: CanvasLayout)
        ensures
            r@ == canvas_layout(),
    {
        let top = vec![
            label("This website is written fully in Rust using "),
            link("egui", "https://github.com/emilk/egui"),
            label(" and "),
            link("eframe", "https://github.com/emilk/egui/tree/master/crates/eframe"),
            label(". Code used to build is available to inspect on "),
            link("github", "https://github.com/jallen02/website"),
        ];
        let bottom = vec![label("Written by Jason Allen - jason@jallen.info")];
        let r = CanvasLayout { top, bottom };
        assert(r@.top =~= canvas_layout().top);
        assert(r@.bottom =~= canvas_layout().bottom);
        r
    }
}

} // verus!
