//! Themes: a theme maps each Markdown element to an inline style string, since
//! WeChat keeps only `style="..."` attributes. Every theme is built from a
//! specification (heading, quote, table and rule layouts, indent, line height and
//! a palette), so themes differ in structure and not only in colour.
use vstd::prelude::*;
use vstd::utf8::{encode_utf8, is_continuation_byte};
use crate::text::{cat, decimal, decimal_string, fmt1, fmt2, fmt3, fmt4, same_text};

verus! {

/// Heading layouts.
#[derive(Clone, Copy, PartialEq, Eq, Debug, Structural)]
pub enum HeadStyle {
    /// A vertical colour bar on the left that thins level by level.
    Bar,
    /// Underlines that step down level by level.
    Underline,
    /// Filled colour blocks with white text.
    Block,
    /// Rounded pills on a soft background.
    Pill,
    /// Double rules above and below.
    Bracket,
    /// Centred title, ruled sections, italic third level.
    Academic,
    /// Oversized title, heavy underline, side bar.
    Magazine,
    /// Centred, airy letter spacing, italic sections.
    Book,
}

/// Block quote layouts.
#[derive(Clone, Copy, PartialEq, Eq, Debug, Structural)]
pub enum QuoteStyle {
    /// A colour bar on the left over a soft background.
    Bar,
    /// An outlined card in italics.
    Card,
    /// Thin rules above and below, centred italics.
    Rule,
}

/// Table layouts.
#[derive(Clone, Copy, PartialEq, Eq, Debug, Structural)]
pub enum TableStyle {
    /// Every cell outlined.
    Grid,
    /// An accented header and zebra-striped body rows.
    Striped,
    /// The academic three-line table: no vertical rules.
    ThreeLine,
}

/// Horizontal rule layouts.
#[derive(Clone, Copy, PartialEq, Eq, Debug, Structural)]
pub enum RuleStyle {
    Solid,
    Dashed,
    Double,
}

/// A theme specification: the four layouts, indent, line height and palette.
/// The lifetime lets the preset table (string literals) and user-edited
/// specifications (borrowed from owned strings) share one builder.
pub struct Spec<'a> {
    pub head: HeadStyle,
    pub quote: QuoteStyle,
    pub table: TableStyle,
    pub rule: RuleStyle,
    pub indent: bool,
    pub lh: &'a str,
    pub accent: &'a str,
    pub soft: &'a str,
    pub head_c: &'a str,
    pub link: &'a str,
    pub code_bg: &'a str,
    pub code_fg: &'a str,
    pub inline_bg: &'a str,
    pub inline_fg: &'a str,
    pub border: &'a str,
    pub ph_border: &'a str,
    pub ph_bg: &'a str,
    pub ph_fg: &'a str,
}

/// The mathematical value of a theme specification.
pub struct SpecModel {
    pub head: HeadStyle,
    pub quote: QuoteStyle,
    pub table: TableStyle,
    pub rule: RuleStyle,
    pub indent: bool,
    pub lh: Seq<char>,
    pub accent: Seq<char>,
    pub soft: Seq<char>,
    pub head_c: Seq<char>,
    pub link: Seq<char>,
    pub code_bg: Seq<char>,
    pub code_fg: Seq<char>,
    pub inline_bg: Seq<char>,
    pub inline_fg: Seq<char>,
    pub border: Seq<char>,
    pub ph_border: Seq<char>,
    pub ph_bg: Seq<char>,
    pub ph_fg: Seq<char>,
}

impl<'a> View for Spec<'a> {
    type V = SpecModel;

    open spec fn view(&self) -> SpecModel {
        SpecModel {
            head: self.head,
            quote: self.quote,
            table: self.table,
            rule: self.rule,
            indent: self.indent,
            lh: self.lh@,
            accent: self.accent@,
            soft: self.soft@,
            head_c: self.head_c@,
            link: self.link@,
            code_bg: self.code_bg@,
            code_fg: self.code_fg@,
            inline_bg: self.inline_bg@,
            inline_fg: self.inline_fg@,
            border: self.border@,
            ph_border: self.ph_border@,
            ph_bg: self.ph_bg@,
            ph_fg: self.ph_fg@,
        }
    }
}

/// The specification of the preset theme `id`; an unknown id gives the default
/// theme (vivid orange).
pub open spec fn preset(id: Seq<char>) -> SpecModel {
    if id == "wechat"@ {
        SpecModel {
            head: HeadStyle::Pill,
            quote: QuoteStyle::Bar,
            table: TableStyle::Grid,
            rule: RuleStyle::Solid,
            indent: false,
            lh: "1.75"@,
            accent: "#07c160"@,
            soft: "#eafaf1"@,
            head_c: "#1a1a1a"@,
            link: "#576b95"@,
            code_bg: "#282c34"@,
            code_fg: "#abb2bf"@,
            inline_bg: "#eef7f1"@,
            inline_fg: "#0a7a43"@,
            border: "#d7ece0"@,
            ph_border: "#07c160"@,
            ph_bg: "#eafaf1"@,
            ph_fg: "#0a7a43"@,
        }
    } else if id == "minimal"@ {
        SpecModel {
            head: HeadStyle::Underline,
            quote: QuoteStyle::Rule,
            table: TableStyle::ThreeLine,
            rule: RuleStyle::Solid,
            indent: false,
            lh: "1.7"@,
            accent: "#333333"@,
            soft: "#f5f5f5"@,
            head_c: "#000000"@,
            link: "#000000"@,
            code_bg: "#f5f5f5"@,
            code_fg: "#333333"@,
            inline_bg: "#f2f2f2"@,
            inline_fg: "#333333"@,
            border: "#cccccc"@,
            ph_border: "#999999"@,
            ph_bg: "#f5f5f5"@,
            ph_fg: "#333333"@,
        }
    } else if id == "purple"@ {
        SpecModel {
            head: HeadStyle::Block,
            quote: QuoteStyle::Card,
            table: TableStyle::Grid,
            rule: RuleStyle::Solid,
            indent: false,
            lh: "1.75"@,
            accent: "#7c3aed"@,
            soft: "#f5f0ff"@,
            head_c: "#241a3a"@,
            link: "#7c3aed"@,
            code_bg: "#241f31"@,
            code_fg: "#dcd6f0"@,
            inline_bg: "#f3eeff"@,
            inline_fg: "#6d28d9"@,
            border: "#ddd3f2"@,
            ph_border: "#7c3aed"@,
            ph_bg: "#f5f0ff"@,
            ph_fg: "#5b21b6"@,
        }
    } else if id == "teal"@ {
        SpecModel {
            head: HeadStyle::Bar,
            quote: QuoteStyle::Bar,
            table: TableStyle::Striped,
            rule: RuleStyle::Solid,
            indent: false,
            lh: "1.75"@,
            accent: "#0d9488"@,
            soft: "#e9f7f5"@,
            head_c: "#10312e"@,
            link: "#0f766e"@,
            code_bg: "#16282a"@,
            code_fg: "#cfe9e5"@,
            inline_bg: "#e6f4f2"@,
            inline_fg: "#0f766e"@,
            border: "#cfe6e2"@,
            ph_border: "#0d9488"@,
            ph_bg: "#e9f7f5"@,
            ph_fg: "#0f766e"@,
        }
    } else if id == "crimson"@ {
        SpecModel {
            head: HeadStyle::Pill,
            quote: QuoteStyle::Card,
            table: TableStyle::Grid,
            rule: RuleStyle::Dashed,
            indent: false,
            lh: "1.75"@,
            accent: "#e11d48"@,
            soft: "#fdeef2"@,
            head_c: "#33121c"@,
            link: "#be123c"@,
            code_bg: "#2a1a1e"@,
            code_fg: "#f0d6dc"@,
            inline_bg: "#fdeaef"@,
            inline_fg: "#be123c"@,
            border: "#f0d3da"@,
            ph_border: "#e11d48"@,
            ph_bg: "#fdeef2"@,
            ph_fg: "#be123c"@,
        }
    } else if id == "forest"@ {
        SpecModel {
            head: HeadStyle::Underline,
            quote: QuoteStyle::Bar,
            table: TableStyle::ThreeLine,
            rule: RuleStyle::Solid,
            indent: false,
            lh: "1.8"@,
            accent: "#2f855a"@,
            soft: "#ecf7f0"@,
            head_c: "#14301f"@,
            link: "#276749"@,
            code_bg: "#1b2a20"@,
            code_fg: "#d3e9da"@,
            inline_bg: "#e8f4ec"@,
            inline_fg: "#276749"@,
            border: "#d2e7da"@,
            ph_border: "#2f855a"@,
            ph_bg: "#ecf7f0"@,
            ph_fg: "#276749"@,
        }
    } else if id == "morandi"@ {
        SpecModel {
            head: HeadStyle::Bracket,
            quote: QuoteStyle::Rule,
            table: TableStyle::Grid,
            rule: RuleStyle::Solid,
            indent: false,
            lh: "1.85"@,
            accent: "#a98467"@,
            soft: "#f4efe9"@,
            head_c: "#4a4238"@,
            link: "#8a7259"@,
            code_bg: "#2e2a26"@,
            code_fg: "#e3dcd2"@,
            inline_bg: "#efe9e1"@,
            inline_fg: "#7c6650"@,
            border: "#e0d7cb"@,
            ph_border: "#a98467"@,
            ph_bg: "#f4efe9"@,
            ph_fg: "#7c6650"@,
        }
    } else if id == "business"@ {
        SpecModel {
            head: HeadStyle::Bracket,
            quote: QuoteStyle::Bar,
            table: TableStyle::Striped,
            rule: RuleStyle::Solid,
            indent: false,
            lh: "1.7"@,
            accent: "#2f5597"@,
            soft: "#eef2f9"@,
            head_c: "#1f2937"@,
            link: "#2f5597"@,
            code_bg: "#232a36"@,
            code_fg: "#d7dde8"@,
            inline_bg: "#eef2f9"@,
            inline_fg: "#2f5597"@,
            border: "#d3dbe8"@,
            ph_border: "#2f5597"@,
            ph_bg: "#eef2f9"@,
            ph_fg: "#2f5597"@,
        }
    } else if id == "tech"@ {
        SpecModel {
            head: HeadStyle::Block,
            quote: QuoteStyle::Card,
            table: TableStyle::Striped,
            rule: RuleStyle::Solid,
            indent: false,
            lh: "1.7"@,
            accent: "#2f6fed"@,
            soft: "#eef3fe"@,
            head_c: "#16233d"@,
            link: "#2f6fed"@,
            code_bg: "#1e2430"@,
            code_fg: "#d6deeb"@,
            inline_bg: "#eef1f6"@,
            inline_fg: "#2f6fed"@,
            border: "#d5dcec"@,
            ph_border: "#2f6fed"@,
            ph_bg: "#eef3fe"@,
            ph_fg: "#1e40af"@,
        }
    } else if id == "academic"@ {
        SpecModel {
            head: HeadStyle::Academic,
            quote: QuoteStyle::Rule,
            table: TableStyle::ThreeLine,
            rule: RuleStyle::Solid,
            indent: false,
            lh: "1.85"@,
            accent: "#2c5282"@,
            soft: "#eef2f8"@,
            head_c: "#1a202c"@,
            link: "#2c5282"@,
            code_bg: "#232a36"@,
            code_fg: "#dbe2ee"@,
            inline_bg: "#eef2f8"@,
            inline_fg: "#2c5282"@,
            border: "#d3dae6"@,
            ph_border: "#2c5282"@,
            ph_bg: "#eef2f8"@,
            ph_fg: "#2c5282"@,
        }
    } else if id == "research"@ {
        SpecModel {
            head: HeadStyle::Underline,
            quote: QuoteStyle::Card,
            table: TableStyle::ThreeLine,
            rule: RuleStyle::Solid,
            indent: false,
            lh: "1.75"@,
            accent: "#0369a1"@,
            soft: "#e8f3fa"@,
            head_c: "#0c2233"@,
            link: "#0369a1"@,
            code_bg: "#0f1b26"@,
            code_fg: "#cfe3f0"@,
            inline_bg: "#e8f3fa"@,
            inline_fg: "#0369a1"@,
            border: "#cfe1ee"@,
            ph_border: "#0369a1"@,
            ph_bg: "#e8f3fa"@,
            ph_fg: "#0369a1"@,
        }
    } else if id == "workplace"@ {
        SpecModel {
            head: HeadStyle::Bar,
            quote: QuoteStyle::Card,
            table: TableStyle::Striped,
            rule: RuleStyle::Solid,
            indent: false,
            lh: "1.75"@,
            accent: "#4f46e5"@,
            soft: "#eef0fe"@,
            head_c: "#1e1b4b"@,
            link: "#4f46e5"@,
            code_bg: "#1f2233"@,
            code_fg: "#dcdff5"@,
            inline_bg: "#eef0fe"@,
            inline_fg: "#4338ca"@,
            border: "#d6d9f5"@,
            ph_border: "#4f46e5"@,
            ph_bg: "#eef0fe"@,
            ph_fg: "#4338ca"@,
        }
    } else if id == "report"@ {
        SpecModel {
            head: HeadStyle::Bar,
            quote: QuoteStyle::Bar,
            table: TableStyle::Striped,
            rule: RuleStyle::Double,
            indent: false,
            lh: "1.7"@,
            accent: "#1d4ed8"@,
            soft: "#eaf0fe"@,
            head_c: "#111827"@,
            link: "#1d4ed8"@,
            code_bg: "#1f2637"@,
            code_fg: "#dbe4f5"@,
            inline_bg: "#eaf0fe"@,
            inline_fg: "#1d4ed8"@,
            border: "#d2dcf2"@,
            ph_border: "#1d4ed8"@,
            ph_bg: "#eaf0fe"@,
            ph_fg: "#1d4ed8"@,
        }
    } else if id == "paper"@ {
        SpecModel {
            head: HeadStyle::Academic,
            quote: QuoteStyle::Rule,
            table: TableStyle::ThreeLine,
            rule: RuleStyle::Solid,
            indent: true,
            lh: "1.9"@,
            accent: "#3f3f46"@,
            soft: "#f2f2f3"@,
            head_c: "#18181b"@,
            link: "#3f3f46"@,
            code_bg: "#27272a"@,
            code_fg: "#e4e4e7"@,
            inline_bg: "#f2f2f3"@,
            inline_fg: "#3f3f46"@,
            border: "#dcdcdf"@,
            ph_border: "#3f3f46"@,
            ph_bg: "#f2f2f3"@,
            ph_fg: "#3f3f46"@,
        }
    } else if id == "magazine"@ {
        SpecModel {
            head: HeadStyle::Magazine,
            quote: QuoteStyle::Card,
            table: TableStyle::Striped,
            rule: RuleStyle::Dashed,
            indent: false,
            lh: "1.7"@,
            accent: "#db2777"@,
            soft: "#fdecf3"@,
            head_c: "#1f2937"@,
            link: "#be185d"@,
            code_bg: "#2a1c26"@,
            code_fg: "#f3d9e6"@,
            inline_bg: "#fdecf3"@,
            inline_fg: "#be185d"@,
            border: "#f2d5e2"@,
            ph_border: "#db2777"@,
            ph_bg: "#fdecf3"@,
            ph_fg: "#be185d"@,
        }
    } else if id == "book"@ {
        SpecModel {
            head: HeadStyle::Book,
            quote: QuoteStyle::Rule,
            table: TableStyle::Grid,
            rule: RuleStyle::Solid,
            indent: true,
            lh: "1.95"@,
            accent: "#8a5a2b"@,
            soft: "#f5efe6"@,
            head_c: "#3f2d1c"@,
            link: "#8a5a2b"@,
            code_bg: "#2e2a26"@,
            code_fg: "#e6ddcd"@,
            inline_bg: "#f5efe6"@,
            inline_fg: "#7c5326"@,
            border: "#e0d6c5"@,
            ph_border: "#8a5a2b"@,
            ph_bg: "#f5efe6"@,
            ph_fg: "#7c5326"@,
        }
    } else {
        SpecModel {
            head: HeadStyle::Bar,
            quote: QuoteStyle::Bar,
            table: TableStyle::Grid,
            rule: RuleStyle::Solid,
            indent: false,
            lh: "1.75"@,
            accent: "#ff6a00"@,
            soft: "#fff3ea"@,
            head_c: "#1a1a1a"@,
            link: "#576b95"@,
            code_bg: "#282c34"@,
            code_fg: "#abb2bf"@,
            inline_bg: "#fff1e6"@,
            inline_fg: "#c2410c"@,
            border: "#dddddd"@,
            ph_border: "#ff8a3d"@,
            ph_bg: "#fff6ef"@,
            ph_fg: "#b3541e"@,
        }
    }
}

/// The specification table of the preset themes: 8 colour themes and 9 publishing
/// themes, each a heading/quote/table/rule layout, indent, line height and palette.
fn preset_spec(id: &str) -> (s: Spec<'static>)
    ensures
        s@ == preset(id@),
{
    if same_text(id, "wechat") {
        Spec {
            head: HeadStyle::Pill,
            quote: QuoteStyle::Bar,
            table: TableStyle::Grid,
            rule: RuleStyle::Solid,
            indent: false,
            lh: "1.75",
            accent: "#07c160",
            soft: "#eafaf1",
            head_c: "#1a1a1a",
            link: "#576b95",
            code_bg: "#282c34",
            code_fg: "#abb2bf",
            inline_bg: "#eef7f1",
            inline_fg: "#0a7a43",
            border: "#d7ece0",
            ph_border: "#07c160",
            ph_bg: "#eafaf1",
            ph_fg: "#0a7a43",
        }
    } else if same_text(id, "minimal") {
        Spec {
            head: HeadStyle::Underline,
            quote: QuoteStyle::Rule,
            table: TableStyle::ThreeLine,
            rule: RuleStyle::Solid,
            indent: false,
            lh: "1.7",
            accent: "#333333",
            soft: "#f5f5f5",
            head_c: "#000000",
            link: "#000000",
            code_bg: "#f5f5f5",
            code_fg: "#333333",
            inline_bg: "#f2f2f2",
            inline_fg: "#333333",
            border: "#cccccc",
            ph_border: "#999999",
            ph_bg: "#f5f5f5",
            ph_fg: "#333333",
        }
    } else if same_text(id, "purple") {
        Spec {
            head: HeadStyle::Block,
            quote: QuoteStyle::Card,
            table: TableStyle::Grid,
            rule: RuleStyle::Solid,
            indent: false,
            lh: "1.75",
            accent: "#7c3aed",
            soft: "#f5f0ff",
            head_c: "#241a3a",
            link: "#7c3aed",
            code_bg: "#241f31",
            code_fg: "#dcd6f0",
            inline_bg: "#f3eeff",
            inline_fg: "#6d28d9",
            border: "#ddd3f2",
            ph_border: "#7c3aed",
            ph_bg: "#f5f0ff",
            ph_fg: "#5b21b6",
        }
    } else if same_text(id, "teal") {
        Spec {
            head: HeadStyle::Bar,
            quote: QuoteStyle::Bar,
            table: TableStyle::Striped,
            rule: RuleStyle::Solid,
            indent: false,
            lh: "1.75",
            accent: "#0d9488",
            soft: "#e9f7f5",
            head_c: "#10312e",
            link: "#0f766e",
            code_bg: "#16282a",
            code_fg: "#cfe9e5",
            inline_bg: "#e6f4f2",
            inline_fg: "#0f766e",
            border: "#cfe6e2",
            ph_border: "#0d9488",
            ph_bg: "#e9f7f5",
            ph_fg: "#0f766e",
        }
    } else if same_text(id, "crimson") {
        Spec {
            head: HeadStyle::Pill,
            quote: QuoteStyle::Card,
            table: TableStyle::Grid,
            rule: RuleStyle::Dashed,
            indent: false,
            lh: "1.75",
            accent: "#e11d48",
            soft: "#fdeef2",
            head_c: "#33121c",
            link: "#be123c",
            code_bg: "#2a1a1e",
            code_fg: "#f0d6dc",
            inline_bg: "#fdeaef",
            inline_fg: "#be123c",
            border: "#f0d3da",
            ph_border: "#e11d48",
            ph_bg: "#fdeef2",
            ph_fg: "#be123c",
        }
    } else if same_text(id, "forest") {
        Spec {
            head: HeadStyle::Underline,
            quote: QuoteStyle::Bar,
            table: TableStyle::ThreeLine,
            rule: RuleStyle::Solid,
            indent: false,
            lh: "1.8",
            accent: "#2f855a",
            soft: "#ecf7f0",
            head_c: "#14301f",
            link: "#276749",
            code_bg: "#1b2a20",
            code_fg: "#d3e9da",
            inline_bg: "#e8f4ec",
            inline_fg: "#276749",
            border: "#d2e7da",
            ph_border: "#2f855a",
            ph_bg: "#ecf7f0",
            ph_fg: "#276749",
        }
    } else if same_text(id, "morandi") {
        Spec {
            head: HeadStyle::Bracket,
            quote: QuoteStyle::Rule,
            table: TableStyle::Grid,
            rule: RuleStyle::Solid,
            indent: false,
            lh: "1.85",
            accent: "#a98467",
            soft: "#f4efe9",
            head_c: "#4a4238",
            link: "#8a7259",
            code_bg: "#2e2a26",
            code_fg: "#e3dcd2",
            inline_bg: "#efe9e1",
            inline_fg: "#7c6650",
            border: "#e0d7cb",
            ph_border: "#a98467",
            ph_bg: "#f4efe9",
            ph_fg: "#7c6650",
        }
    } else if same_text(id, "business") {
        Spec {
            head: HeadStyle::Bracket,
            quote: QuoteStyle::Bar,
            table: TableStyle::Striped,
            rule: RuleStyle::Solid,
            indent: false,
            lh: "1.7",
            accent: "#2f5597",
            soft: "#eef2f9",
            head_c: "#1f2937",
            link: "#2f5597",
            code_bg: "#232a36",
            code_fg: "#d7dde8",
            inline_bg: "#eef2f9",
            inline_fg: "#2f5597",
            border: "#d3dbe8",
            ph_border: "#2f5597",
            ph_bg: "#eef2f9",
            ph_fg: "#2f5597",
        }
    } else if same_text(id, "tech") {
        Spec {
            head: HeadStyle::Block,
            quote: QuoteStyle::Card,
            table: TableStyle::Striped,
            rule: RuleStyle::Solid,
            indent: false,
            lh: "1.7",
            accent: "#2f6fed",
            soft: "#eef3fe",
            head_c: "#16233d",
            link: "#2f6fed",
            code_bg: "#1e2430",
            code_fg: "#d6deeb",
            inline_bg: "#eef1f6",
            inline_fg: "#2f6fed",
            border: "#d5dcec",
            ph_border: "#2f6fed",
            ph_bg: "#eef3fe",
            ph_fg: "#1e40af",
        }
    } else if same_text(id, "academic") {
        Spec {
            head: HeadStyle::Academic,
            quote: QuoteStyle::Rule,
            table: TableStyle::ThreeLine,
            rule: RuleStyle::Solid,
            indent: false,
            lh: "1.85",
            accent: "#2c5282",
            soft: "#eef2f8",
            head_c: "#1a202c",
            link: "#2c5282",
            code_bg: "#232a36",
            code_fg: "#dbe2ee",
            inline_bg: "#eef2f8",
            inline_fg: "#2c5282",
            border: "#d3dae6",
            ph_border: "#2c5282",
            ph_bg: "#eef2f8",
            ph_fg: "#2c5282",
        }
    } else if same_text(id, "research") {
        Spec {
            head: HeadStyle::Underline,
            quote: QuoteStyle::Card,
            table: TableStyle::ThreeLine,
            rule: RuleStyle::Solid,
            indent: false,
            lh: "1.75",
            accent: "#0369a1",
            soft: "#e8f3fa",
            head_c: "#0c2233",
            link: "#0369a1",
            code_bg: "#0f1b26",
            code_fg: "#cfe3f0",
            inline_bg: "#e8f3fa",
            inline_fg: "#0369a1",
            border: "#cfe1ee",
            ph_border: "#0369a1",
            ph_bg: "#e8f3fa",
            ph_fg: "#0369a1",
        }
    } else if same_text(id, "workplace") {
        Spec {
            head: HeadStyle::Bar,
            quote: QuoteStyle::Card,
            table: TableStyle::Striped,
            rule: RuleStyle::Solid,
            indent: false,
            lh: "1.75",
            accent: "#4f46e5",
            soft: "#eef0fe",
            head_c: "#1e1b4b",
            link: "#4f46e5",
            code_bg: "#1f2233",
            code_fg: "#dcdff5",
            inline_bg: "#eef0fe",
            inline_fg: "#4338ca",
            border: "#d6d9f5",
            ph_border: "#4f46e5",
            ph_bg: "#eef0fe",
            ph_fg: "#4338ca",
        }
    } else if same_text(id, "report") {
        Spec {
            head: HeadStyle::Bar,
            quote: QuoteStyle::Bar,
            table: TableStyle::Striped,
            rule: RuleStyle::Double,
            indent: false,
            lh: "1.7",
            accent: "#1d4ed8",
            soft: "#eaf0fe",
            head_c: "#111827",
            link: "#1d4ed8",
            code_bg: "#1f2637",
            code_fg: "#dbe4f5",
            inline_bg: "#eaf0fe",
            inline_fg: "#1d4ed8",
            border: "#d2dcf2",
            ph_border: "#1d4ed8",
            ph_bg: "#eaf0fe",
            ph_fg: "#1d4ed8",
        }
    } else if same_text(id, "paper") {
        Spec {
            head: HeadStyle::Academic,
            quote: QuoteStyle::Rule,
            table: TableStyle::ThreeLine,
            rule: RuleStyle::Solid,
            indent: true,
            lh: "1.9",
            accent: "#3f3f46",
            soft: "#f2f2f3",
            head_c: "#18181b",
            link: "#3f3f46",
            code_bg: "#27272a",
            code_fg: "#e4e4e7",
            inline_bg: "#f2f2f3",
            inline_fg: "#3f3f46",
            border: "#dcdcdf",
            ph_border: "#3f3f46",
            ph_bg: "#f2f2f3",
            ph_fg: "#3f3f46",
        }
    } else if same_text(id, "magazine") {
        Spec {
            head: HeadStyle::Magazine,
            quote: QuoteStyle::Card,
            table: TableStyle::Striped,
            rule: RuleStyle::Dashed,
            indent: false,
            lh: "1.7",
            accent: "#db2777",
            soft: "#fdecf3",
            head_c: "#1f2937",
            link: "#be185d",
            code_bg: "#2a1c26",
            code_fg: "#f3d9e6",
            inline_bg: "#fdecf3",
            inline_fg: "#be185d",
            border: "#f2d5e2",
            ph_border: "#db2777",
            ph_bg: "#fdecf3",
            ph_fg: "#be185d",
        }
    } else if same_text(id, "book") {
        Spec {
            head: HeadStyle::Book,
            quote: QuoteStyle::Rule,
            table: TableStyle::Grid,
            rule: RuleStyle::Solid,
            indent: true,
            lh: "1.95",
            accent: "#8a5a2b",
            soft: "#f5efe6",
            head_c: "#3f2d1c",
            link: "#8a5a2b",
            code_bg: "#2e2a26",
            code_fg: "#e6ddcd",
            inline_bg: "#f5efe6",
            inline_fg: "#7c5326",
            border: "#e0d6c5",
            ph_border: "#8a5a2b",
            ph_bg: "#f5efe6",
            ph_fg: "#7c5326",
        }
    } else {
        Spec {
            head: HeadStyle::Bar,
            quote: QuoteStyle::Bar,
            table: TableStyle::Grid,
            rule: RuleStyle::Solid,
            indent: false,
            lh: "1.75",
            accent: "#ff6a00",
            soft: "#fff3ea",
            head_c: "#1a1a1a",
            link: "#576b95",
            code_bg: "#282c34",
            code_fg: "#abb2bf",
            inline_bg: "#fff1e6",
            inline_fg: "#c2410c",
            border: "#dddddd",
            ph_border: "#ff8a3d",
            ph_bg: "#fff6ef",
            ph_fg: "#b3541e",
        }
    }
}
/// The style of heading level `level` (1 to 6) under layout `kind`.
pub open spec fn heading_style_of(
    kind: HeadStyle,
    level: int,
    accent: Seq<char>,
    head: Seq<char>,
    soft: Seq<char>,
    border: Seq<char>,
) -> Seq<char> {
    match kind {
        HeadStyle::Bar => {
            if level == 1 {
                "font-size:26px;font-weight:bold;color:"@ + head + ";text-align:center;letter-spacing:1px;margin:30px 0 18px;"@
            } else if level == 2 {
                "font-size:22px;font-weight:bold;color:"@ + accent + ";border-left:5px solid "@ + accent + ";background:"@ + soft + ";padding:6px 0 6px 12px;line-height:1.4;margin:28px 0 14px;"@
            } else if level == 3 {
                "font-size:19px;font-weight:bold;color:"@ + head + ";border-left:3px solid "@ + accent + ";padding-left:10px;margin:24px 0 12px;"@
            } else if level == 4 {
                "font-size:17px;font-weight:bold;color:"@ + accent + ";margin:20px 0 10px;"@
            } else if level == 5 {
                "font-size:15px;font-weight:bold;color:"@ + head + ";letter-spacing:0.5px;margin:18px 0 8px;"@
            } else {
                "font-size:14px;font-weight:bold;color:"@ + "#98a0ab"@ + ";letter-spacing:1px;margin:16px 0 8px;"@
            }
        },
        HeadStyle::Underline => {
            if level == 1 {
                "font-size:26px;font-weight:bold;color:"@ + head + ";text-align:center;letter-spacing:1px;margin:30px 0 18px;"@
            } else if level == 2 {
                "font-size:22px;font-weight:bold;color:"@ + head + ";border-bottom:2px solid "@ + accent + ";padding-bottom:8px;margin:28px 0 14px;"@
            } else if level == 3 {
                "font-size:19px;font-weight:bold;color:"@ + accent + ";border-bottom:1px solid "@ + border + ";padding-bottom:6px;margin:24px 0 12px;"@
            } else if level == 4 {
                "font-size:17px;font-weight:bold;color:"@ + head + ";margin:20px 0 10px;"@
            } else if level == 5 {
                "font-size:15px;font-weight:bold;color:"@ + accent + ";margin:18px 0 8px;"@
            } else {
                "font-size:14px;font-weight:bold;color:"@ + "#98a0ab"@ + ";letter-spacing:1px;margin:16px 0 8px;"@
            }
        },
        HeadStyle::Block => {
            if level == 1 {
                "font-size:26px;font-weight:bold;color:#ffffff;background:"@ + accent + ";text-align:center;padding:12px 16px;border-radius:8px;letter-spacing:1px;margin:30px 0 18px;"@
            } else if level == 2 {
                "font-size:21px;font-weight:bold;color:#ffffff;background:"@ + accent + ";padding:8px 14px;border-radius:6px;margin:28px 0 14px;"@
            } else if level == 3 {
                "font-size:19px;font-weight:bold;color:"@ + accent + ";background:"@ + soft + ";padding:6px 12px;border-radius:6px;margin:24px 0 12px;"@
            } else if level == 4 {
                "font-size:17px;font-weight:bold;color:"@ + head + ";border-left:4px solid "@ + accent + ";padding-left:10px;margin:20px 0 10px;"@
            } else if level == 5 {
                "font-size:15px;font-weight:bold;color:"@ + accent + ";margin:18px 0 8px;"@
            } else {
                "font-size:14px;font-weight:bold;color:"@ + "#98a0ab"@ + ";letter-spacing:1px;margin:16px 0 8px;"@
            }
        },
        HeadStyle::Pill => {
            if level == 1 {
                "font-size:26px;font-weight:bold;color:"@ + head + ";text-align:center;letter-spacing:1px;margin:30px 0 18px;"@
            } else if level == 2 {
                "font-size:21px;font-weight:bold;color:"@ + accent + ";background:"@ + soft + ";text-align:center;padding:9px 18px;border-radius:14px;margin:28px 0 14px;"@
            } else if level == 3 {
                "font-size:19px;font-weight:bold;color:"@ + accent + ";background:"@ + soft + ";padding:5px 12px;border-radius:10px;margin:24px 0 12px;"@
            } else if level == 4 {
                "font-size:17px;font-weight:bold;color:"@ + head + ";border-left:4px solid "@ + accent + ";border-radius:2px;padding-left:10px;margin:20px 0 10px;"@
            } else if level == 5 {
                "font-size:15px;font-weight:bold;color:"@ + accent + ";margin:18px 0 8px;"@
            } else {
                "font-size:14px;font-weight:bold;color:"@ + "#98a0ab"@ + ";letter-spacing:1px;margin:16px 0 8px;"@
            }
        },
        HeadStyle::Bracket => {
            if level == 1 {
                "font-size:26px;font-weight:bold;color:"@ + head + ";text-align:center;letter-spacing:2px;margin:30px 0 18px;"@
            } else if level == 2 {
                "font-size:21px;font-weight:bold;color:"@ + head + ";text-align:center;border-top:1px solid "@ + accent + ";border-bottom:1px solid "@ + accent + ";padding:8px 0;letter-spacing:1px;margin:28px 0 14px;"@
            } else if level == 3 {
                "font-size:19px;font-weight:bold;color:"@ + accent + ";border-bottom:1px dotted "@ + border + ";padding-bottom:5px;margin:24px 0 12px;"@
            } else if level == 4 {
                "font-size:17px;font-weight:bold;color:"@ + head + ";letter-spacing:0.5px;margin:20px 0 10px;"@
            } else if level == 5 {
                "font-size:15px;font-weight:bold;color:"@ + accent + ";margin:18px 0 8px;"@
            } else {
                "font-size:14px;font-weight:bold;color:"@ + "#98a0ab"@ + ";letter-spacing:1px;margin:16px 0 8px;"@
            }
        },
        HeadStyle::Academic => {
            if level == 1 {
                "font-size:24px;font-weight:bold;color:"@ + head + ";text-align:center;letter-spacing:0.5px;margin:32px 0 20px;"@
            } else if level == 2 {
                "font-size:20px;font-weight:bold;color:"@ + head + ";border-bottom:1px solid "@ + border + ";padding-bottom:6px;margin:28px 0 14px;"@
            } else if level == 3 {
                "font-size:17px;font-weight:bold;font-style:italic;color:"@ + head + ";margin:24px 0 12px;"@
            } else if level == 4 {
                "font-size:15px;font-weight:bold;color:"@ + accent + ";margin:20px 0 10px;"@
            } else if level == 5 {
                "font-size:14px;font-weight:bold;color:"@ + head + ";margin:18px 0 8px;"@
            } else {
                "font-size:13px;font-weight:bold;color:"@ + "#98a0ab"@ + ";letter-spacing:1px;margin:16px 0 8px;"@
            }
        },
        HeadStyle::Magazine => {
            if level == 1 {
                "font-size:30px;font-weight:bold;color:"@ + accent + ";line-height:1.2;letter-spacing:0.5px;margin:30px 0 18px;"@
            } else if level == 2 {
                "font-size:24px;font-weight:bold;color:"@ + head + ";border-bottom:3px solid "@ + accent + ";padding-bottom:6px;margin:28px 0 14px;"@
            } else if level == 3 {
                "font-size:20px;font-weight:bold;color:"@ + accent + ";margin:24px 0 12px;"@
            } else if level == 4 {
                "font-size:17px;font-weight:bold;color:"@ + head + ";border-left:4px solid "@ + accent + ";padding-left:10px;margin:20px 0 10px;"@
            } else if level == 5 {
                "font-size:15px;font-weight:bold;color:"@ + accent + ";letter-spacing:0.5px;margin:18px 0 8px;"@
            } else {
                "font-size:13px;font-weight:bold;color:"@ + "#98a0ab"@ + ";letter-spacing:1.5px;margin:16px 0 8px;"@
            }
        },
        HeadStyle::Book => {
            if level == 1 {
                "font-size:28px;font-weight:bold;color:"@ + head + ";text-align:center;letter-spacing:2px;margin:34px 0 22px;"@
            } else if level == 2 {
                "font-size:22px;font-weight:bold;color:"@ + head + ";text-align:center;border-bottom:1px solid "@ + border + ";padding-bottom:8px;margin:30px 0 16px;"@
            } else if level == 3 {
                "font-size:19px;font-weight:bold;color:"@ + accent + ";margin:26px 0 12px;"@
            } else if level == 4 {
                "font-size:17px;font-weight:bold;font-style:italic;color:"@ + head + ";margin:22px 0 10px;"@
            } else if level == 5 {
                "font-size:15px;font-weight:bold;color:"@ + accent + ";margin:18px 0 8px;"@
            } else {
                "font-size:14px;font-style:italic;color:"@ + "#98a0ab"@ + ";margin:16px 0 8px;"@
            }
        },
    }
}

/// The six heading styles, H1 to H6, of layout `kind`: size, weight, colour and
/// decoration step down level by level.
fn headings(kind: HeadStyle, accent: &str, head: &str, soft: &str, border: &str) -> (r: (
    String,
    String,
    String,
    String,
    String,
    String,
))
    ensures
        r.0@ == heading_style_of(kind, 1, accent@, head@, soft@, border@),
        r.1@ == heading_style_of(kind, 2, accent@, head@, soft@, border@),
        r.2@ == heading_style_of(kind, 3, accent@, head@, soft@, border@),
        r.3@ == heading_style_of(kind, 4, accent@, head@, soft@, border@),
        r.4@ == heading_style_of(kind, 5, accent@, head@, soft@, border@),
        r.5@ == heading_style_of(kind, 6, accent@, head@, soft@, border@),
{
    match kind {
        HeadStyle::Bar => (
            fmt1("font-size:26px;font-weight:bold;color:", head, ";text-align:center;letter-spacing:1px;margin:30px 0 18px;"),
            fmt3("font-size:22px;font-weight:bold;color:", accent, ";border-left:5px solid ", accent, ";background:", soft, ";padding:6px 0 6px 12px;line-height:1.4;margin:28px 0 14px;"),
            fmt2("font-size:19px;font-weight:bold;color:", head, ";border-left:3px solid ", accent, ";padding-left:10px;margin:24px 0 12px;"),
            fmt1("font-size:17px;font-weight:bold;color:", accent, ";margin:20px 0 10px;"),
            fmt1("font-size:15px;font-weight:bold;color:", head, ";letter-spacing:0.5px;margin:18px 0 8px;"),
            fmt1("font-size:14px;font-weight:bold;color:", "#98a0ab", ";letter-spacing:1px;margin:16px 0 8px;"),
        ),
        HeadStyle::Underline => (
            fmt1("font-size:26px;font-weight:bold;color:", head, ";text-align:center;letter-spacing:1px;margin:30px 0 18px;"),
            fmt2("font-size:22px;font-weight:bold;color:", head, ";border-bottom:2px solid ", accent, ";padding-bottom:8px;margin:28px 0 14px;"),
            fmt2("font-size:19px;font-weight:bold;color:", accent, ";border-bottom:1px solid ", border, ";padding-bottom:6px;margin:24px 0 12px;"),
            fmt1("font-size:17px;font-weight:bold;color:", head, ";margin:20px 0 10px;"),
            fmt1("font-size:15px;font-weight:bold;color:", accent, ";margin:18px 0 8px;"),
            fmt1("font-size:14px;font-weight:bold;color:", "#98a0ab", ";letter-spacing:1px;margin:16px 0 8px;"),
        ),
        HeadStyle::Block => (
            fmt1("font-size:26px;font-weight:bold;color:#ffffff;background:", accent, ";text-align:center;padding:12px 16px;border-radius:8px;letter-spacing:1px;margin:30px 0 18px;"),
            fmt1("font-size:21px;font-weight:bold;color:#ffffff;background:", accent, ";padding:8px 14px;border-radius:6px;margin:28px 0 14px;"),
            fmt2("font-size:19px;font-weight:bold;color:", accent, ";background:", soft, ";padding:6px 12px;border-radius:6px;margin:24px 0 12px;"),
            fmt2("font-size:17px;font-weight:bold;color:", head, ";border-left:4px solid ", accent, ";padding-left:10px;margin:20px 0 10px;"),
            fmt1("font-size:15px;font-weight:bold;color:", accent, ";margin:18px 0 8px;"),
            fmt1("font-size:14px;font-weight:bold;color:", "#98a0ab", ";letter-spacing:1px;margin:16px 0 8px;"),
        ),
        HeadStyle::Pill => (
            fmt1("font-size:26px;font-weight:bold;color:", head, ";text-align:center;letter-spacing:1px;margin:30px 0 18px;"),
            fmt2("font-size:21px;font-weight:bold;color:", accent, ";background:", soft, ";text-align:center;padding:9px 18px;border-radius:14px;margin:28px 0 14px;"),
            fmt2("font-size:19px;font-weight:bold;color:", accent, ";background:", soft, ";padding:5px 12px;border-radius:10px;margin:24px 0 12px;"),
            fmt2("font-size:17px;font-weight:bold;color:", head, ";border-left:4px solid ", accent, ";border-radius:2px;padding-left:10px;margin:20px 0 10px;"),
            fmt1("font-size:15px;font-weight:bold;color:", accent, ";margin:18px 0 8px;"),
            fmt1("font-size:14px;font-weight:bold;color:", "#98a0ab", ";letter-spacing:1px;margin:16px 0 8px;"),
        ),
        HeadStyle::Bracket => (
            fmt1("font-size:26px;font-weight:bold;color:", head, ";text-align:center;letter-spacing:2px;margin:30px 0 18px;"),
            fmt3("font-size:21px;font-weight:bold;color:", head, ";text-align:center;border-top:1px solid ", accent, ";border-bottom:1px solid ", accent, ";padding:8px 0;letter-spacing:1px;margin:28px 0 14px;"),
            fmt2("font-size:19px;font-weight:bold;color:", accent, ";border-bottom:1px dotted ", border, ";padding-bottom:5px;margin:24px 0 12px;"),
            fmt1("font-size:17px;font-weight:bold;color:", head, ";letter-spacing:0.5px;margin:20px 0 10px;"),
            fmt1("font-size:15px;font-weight:bold;color:", accent, ";margin:18px 0 8px;"),
            fmt1("font-size:14px;font-weight:bold;color:", "#98a0ab", ";letter-spacing:1px;margin:16px 0 8px;"),
        ),
        HeadStyle::Academic => (
            fmt1("font-size:24px;font-weight:bold;color:", head, ";text-align:center;letter-spacing:0.5px;margin:32px 0 20px;"),
            fmt2("font-size:20px;font-weight:bold;color:", head, ";border-bottom:1px solid ", border, ";padding-bottom:6px;margin:28px 0 14px;"),
            fmt1("font-size:17px;font-weight:bold;font-style:italic;color:", head, ";margin:24px 0 12px;"),
            fmt1("font-size:15px;font-weight:bold;color:", accent, ";margin:20px 0 10px;"),
            fmt1("font-size:14px;font-weight:bold;color:", head, ";margin:18px 0 8px;"),
            fmt1("font-size:13px;font-weight:bold;color:", "#98a0ab", ";letter-spacing:1px;margin:16px 0 8px;"),
        ),
        HeadStyle::Magazine => (
            fmt1("font-size:30px;font-weight:bold;color:", accent, ";line-height:1.2;letter-spacing:0.5px;margin:30px 0 18px;"),
            fmt2("font-size:24px;font-weight:bold;color:", head, ";border-bottom:3px solid ", accent, ";padding-bottom:6px;margin:28px 0 14px;"),
            fmt1("font-size:20px;font-weight:bold;color:", accent, ";margin:24px 0 12px;"),
            fmt2("font-size:17px;font-weight:bold;color:", head, ";border-left:4px solid ", accent, ";padding-left:10px;margin:20px 0 10px;"),
            fmt1("font-size:15px;font-weight:bold;color:", accent, ";letter-spacing:0.5px;margin:18px 0 8px;"),
            fmt1("font-size:13px;font-weight:bold;color:", "#98a0ab", ";letter-spacing:1.5px;margin:16px 0 8px;"),
        ),
        HeadStyle::Book => (
            fmt1("font-size:28px;font-weight:bold;color:", head, ";text-align:center;letter-spacing:2px;margin:34px 0 22px;"),
            fmt2("font-size:22px;font-weight:bold;color:", head, ";text-align:center;border-bottom:1px solid ", border, ";padding-bottom:8px;margin:30px 0 16px;"),
            fmt1("font-size:19px;font-weight:bold;color:", accent, ";margin:26px 0 12px;"),
            fmt1("font-size:17px;font-weight:bold;font-style:italic;color:", head, ";margin:22px 0 10px;"),
            fmt1("font-size:15px;font-weight:bold;color:", accent, ";margin:18px 0 8px;"),
            fmt1("font-size:14px;font-style:italic;color:", "#98a0ab", ";margin:16px 0 8px;"),
        ),
    }
}
/// The shape language: corner radius in pixels, by heading layout.
pub open spec fn radius_of(h: HeadStyle) -> nat {
    match h {
        HeadStyle::Block | HeadStyle::Pill => 10,
        HeadStyle::Bar | HeadStyle::Bracket | HeadStyle::Magazine => 4,
        HeadStyle::Underline | HeadStyle::Academic => 2,
        HeadStyle::Book => 6,
    }
}

/// Round for blocks and pills, square for bars, rules and magazines, crisp for
/// underlines and academic, soft for books.
fn radius(h: HeadStyle) -> (r: u64)
    ensures
        r == radius_of(h),
{
    match h {
        HeadStyle::Block | HeadStyle::Pill => 10,
        HeadStyle::Bar | HeadStyle::Bracket | HeadStyle::Magazine => 4,
        HeadStyle::Underline | HeadStyle::Academic => 2,
        HeadStyle::Book => 6,
    }
}

/// The block quote style of layout `q` with corner radius `r`.
pub open spec fn quote_style_of(
    q: QuoteStyle,
    accent: Seq<char>,
    soft: Seq<char>,
    border: Seq<char>,
    r: nat,
) -> Seq<char> {
    match q {
        QuoteStyle::Bar => "border-left:4px solid "@ + accent + ";background:"@ + soft
            + ";color:#5a6069;padding:10px 14px;border-radius:"@ + decimal(r)
            + "px;margin:16px 0;"@,
        QuoteStyle::Card => "border:1px solid "@ + border + ";background:"@ + soft
            + ";color:#5a6069;padding:12px 16px;border-radius:"@ + decimal(r + 2)
            + "px;margin:18px 0;font-style:italic;"@,
        QuoteStyle::Rule => "border-top:1px solid "@ + border + ";border-bottom:1px solid "@
            + border
            + ";color:#6a7079;padding:12px 6px;margin:18px 0;font-style:italic;text-align:center;"@,
    }
}

fn quote_style(q: QuoteStyle, accent: &str, soft: &str, border: &str, r: u64) -> (s: String)
    requires
        r <= 100,
    ensures
        s@ == quote_style_of(q, accent@, soft@, border@, r as nat),
{
    match q {
        QuoteStyle::Bar => {
            let rs = decimal_string(r);
            fmt3(
                "border-left:4px solid ",
                accent,
                ";background:",
                soft,
                ";color:#5a6069;padding:10px 14px;border-radius:",
                rs.as_str(),
                "px;margin:16px 0;",
            )
        },
        QuoteStyle::Card => {
            let rs = decimal_string(r + 2);
            fmt3(
                "border:1px solid ",
                border,
                ";background:",
                soft,
                ";color:#5a6069;padding:12px 16px;border-radius:",
                rs.as_str(),
                "px;margin:18px 0;font-style:italic;",
            )
        },
        QuoteStyle::Rule => fmt2(
            "border-top:1px solid ",
            border,
            ";border-bottom:1px solid ",
            border,
            ";color:#6a7079;padding:12px 6px;margin:18px 0;font-style:italic;text-align:center;",
        ),
    }
}

/// The horizontal rule style of layout `r`.
pub open spec fn rule_style_of(r: RuleStyle, border: Seq<char>) -> Seq<char> {
    match r {
        RuleStyle::Solid => "border:none;border-top:1px solid "@ + border + ";margin:24px 0;"@,
        RuleStyle::Dashed => "border:none;border-top:1px dashed "@ + border + ";margin:24px 0;"@,
        RuleStyle::Double => "border:none;border-top:3px double "@ + border + ";margin:26px 0;"@,
    }
}

fn rule_style(r: RuleStyle, border: &str) -> (s: String)
    ensures
        s@ == rule_style_of(r, border@),
{
    match r {
        RuleStyle::Solid => fmt1("border:none;border-top:1px solid ", border, ";margin:24px 0;"),
        RuleStyle::Dashed => fmt1("border:none;border-top:1px dashed ", border, ";margin:24px 0;"),
        RuleStyle::Double => fmt1("border:none;border-top:3px double ", border, ";margin:26px 0;"),
    }
}

/// The table styles of layout `tb`: table, header cell, body cell, and the body
/// cell of even rows (zebra stripes; the same as the body cell unless striped).
pub open spec fn table_styles_of(
    tb: TableStyle,
    accent: Seq<char>,
    soft: Seq<char>,
    head_c: Seq<char>,
    border: Seq<char>,
) -> (Seq<char>, Seq<char>, Seq<char>, Seq<char>) {
    match tb {
        TableStyle::Grid => {
            let table = "border-collapse:collapse;width:100%;margin:16px 0;border:1px solid "@
                + border + ";"@;
            let th = "border:1px solid "@ + border + ";background:"@ + soft
                + ";padding:8px 10px;text-align:left;font-weight:bold;color:"@ + head_c + ";"@;
            let td = "border:1px solid "@ + border + ";padding:8px 10px;"@;
            (table, th, td, td)
        },
        TableStyle::Striped => {
            let table = "border-collapse:collapse;width:100%;margin:16px 0;border:1px solid "@
                + border + ";"@;
            let th = "border:1px solid "@ + border + ";background:"@ + accent
                + ";color:#ffffff;padding:8px 10px;text-align:left;font-weight:bold;"@;
            let td = "border:1px solid "@ + border + ";padding:8px 10px;background:#ffffff;"@;
            let td_alt = "border:1px solid "@ + border + ";padding:8px 10px;background:"@ + soft
                + ";"@;
            (table, th, td, td_alt)
        },
        TableStyle::ThreeLine => {
            let table = "border-collapse:collapse;width:100%;margin:18px 0;border-top:2px solid "@
                + head_c + ";border-bottom:2px solid "@ + head_c + ";"@;
            let th = "border:none;border-bottom:1px solid "@ + head_c
                + ";padding:8px 10px;text-align:left;font-weight:bold;color:"@ + head_c + ";"@;
            let td = "border:none;padding:8px 10px;"@;
            (table, th, td, td)
        },
    }
}

fn table_style(tb: TableStyle, accent: &str, soft: &str, head_c: &str, border: &str) -> (r: (
    String,
    String,
    String,
    String,
))
    ensures
        (r.0@, r.1@, r.2@, r.3@) == table_styles_of(tb, accent@, soft@, head_c@, border@),
{
    match tb {
        TableStyle::Grid => {
            let table = fmt1(
                "border-collapse:collapse;width:100%;margin:16px 0;border:1px solid ",
                border,
                ";",
            );
            let th = fmt3(
                "border:1px solid ",
                border,
                ";background:",
                soft,
                ";padding:8px 10px;text-align:left;font-weight:bold;color:",
                head_c,
                ";",
            );
            let td = fmt1("border:1px solid ", border, ";padding:8px 10px;");
            let td2 = td.clone();
            (table, th, td, td2)
        },
        TableStyle::Striped => {
            let table = fmt1(
                "border-collapse:collapse;width:100%;margin:16px 0;border:1px solid ",
                border,
                ";",
            );
            let th = fmt2(
                "border:1px solid ",
                border,
                ";background:",
                accent,
                ";color:#ffffff;padding:8px 10px;text-align:left;font-weight:bold;",
            );
            let td = fmt1("border:1px solid ", border, ";padding:8px 10px;background:#ffffff;");
            let td_alt = fmt2("border:1px solid ", border, ";padding:8px 10px;background:", soft, ";");
            (table, th, td, td_alt)
        },
        TableStyle::ThreeLine => {
            let table = fmt2(
                "border-collapse:collapse;width:100%;margin:18px 0;border-top:2px solid ",
                head_c,
                ";border-bottom:2px solid ",
                head_c,
                ";",
            );
            let th = fmt2(
                "border:none;border-bottom:1px solid ",
                head_c,
                ";padding:8px 10px;text-align:left;font-weight:bold;color:",
                head_c,
                ";",
            );
            let td = "border:none;padding:8px 10px;".to_owned();
            let td2 = td.clone();
            (table, th, td, td2)
        },
    }
}

/// The value of an ASCII hexadecimal digit.
pub open spec fn hex_digit_value(b: u8) -> Option<nat> {
    if 0x30 <= b <= 0x39 {
        Some((b - 0x30) as nat)
    } else if 0x61 <= b <= 0x66 {
        Some((b - 0x61 + 10) as nat)
    } else if 0x41 <= b <= 0x46 {
        Some((b - 0x41 + 10) as nat)
    } else {
        None
    }
}

/// What `u8::from_str_radix(.., 16).unwrap_or(0)` gives for a two-byte text:
/// two hex digits, or `+` and one hex digit; anything else is an error, hence 0.
pub open spec fn hex_pair_value(a: u8, b: u8) -> nat {
    if a == 0x2B {
        match hex_digit_value(b) {
            Some(v) => v,
            None => 0,
        }
    } else {
        match (hex_digit_value(a), hex_digit_value(b)) {
            (Some(x), Some(y)) => 16 * x + y,
            _ => 0,
        }
    }
}

/// The bytes left once every leading `#` is removed.
pub open spec fn trim_hashes(b: Seq<u8>) -> Seq<u8>
    decreases b.len(),
{
    if b.len() > 0 && b[0] == 0x23 {
        trim_hashes(b.drop_first())
    } else {
        b
    }
}

/// The colour triples whose luminance is exactly one half (299r + 587g + 114b =
/// 127500) and for which the double-precision luminance
/// `(0.299 r + 0.587 g + 0.114 b) / 255.0` nevertheless rounds below 0.5.
pub open spec fn rounds_below_half(r: nat, g: nat, b: nat) -> bool {
    (r == 0 && g == 204 && b == 68)
    || (r == 12 && g == 174 && b == 191)
    || (r == 15 && g == 195 && b == 75)
    || (r == 23 && g == 175 && b == 157)
    || (r == 30 && g == 186 && b == 82)
    || (r == 38 && g == 166 && b == 164)
    || (r == 41 && g == 187 && b == 48)
    || (r == 53 && g == 157 && b == 171)
    || (r == 56 && g == 178 && b == 55)
    || (r == 64 && g == 158 && b == 137)
    || (r == 71 && g == 169 && b == 62)
    || (r == 79 && g == 149 && b == 144)
    || (r == 86 && g == 160 && b == 69)
    || (r == 87 && g == 129 && b == 226)
    || (r == 94 && g == 140 && b == 151)
    || (r == 97 && g == 161 && b == 35)
    || (r == 102 && g == 120 && b == 233)
    || (r == 112 && g == 152 && b == 42)
    || (r == 117 && g == 111 && b == 240)
    || (r == 120 && g == 132 && b == 124)
    || (r == 127 && g == 143 && b == 49)
    || (r == 132 && g == 102 && b == 247)
    || (r == 135 && g == 123 && b == 131)
    || (r == 138 && g == 144 && b == 15)
    || (r == 143 && g == 103 && b == 213)
    || (r == 147 && g == 93 && b == 254)
    || (r == 153 && g == 135 && b == 22)
    || (r == 158 && g == 94 && b == 220)
    || (r == 161 && g == 115 && b == 104)
    || (r == 168 && g == 126 && b == 29)
    || (r == 173 && g == 85 && b == 227)
    || (r == 176 && g == 106 && b == 111)
    || (r == 188 && g == 76 && b == 234)
    || (r == 194 && g == 118 && b == 2)
    || (r == 198 && g == 108 && b == 43)
    || (r == 199 && g == 77 && b == 200)
    || (r == 209 && g == 109 && b == 9)
    || (r == 214 && g == 68 && b == 207)
    || (r == 217 && g == 89 && b == 91)
    || (r == 224 && g == 100 && b == 16)
    || (r == 232 && g == 80 && b == 98)
    || (r == 239 && g == 91 && b == 23)
    || (r == 240 && g == 60 && b == 180)
    || (r == 255 && g == 51 && b == 187)
}

/// Whether the colour `#rrggbb` counts as dark: its relative luminance
/// `0.299 r + 0.587 g + 0.114 b`, over 255, is below one half, as evaluated in
/// double precision. Leading `#`s are ignored; any text other than six bytes is
/// dark; a channel that is not valid hexadecimal counts as 0.
pub open spec fn dark_hex(hex: Seq<char>) -> bool {
    let h = trim_hashes(encode_utf8(hex));
    if h.len() != 6 {
        true
    } else {
        let r = hex_pair_value(h[0], h[1]);
        let g = hex_pair_value(h[2], h[3]);
        let b = hex_pair_value(h[4], h[5]);
        299 * r + 587 * g + 114 * b < 127500 || (299 * r + 587 * g + 114 * b == 127500
            && rounds_below_half(r, g, b))
    }
}

/// Whether reading `hex` as three two-byte channels would cut a character in
/// two: the text is six bytes long and byte 2 or byte 4 continues a character.
pub open spec fn dark_hex_panics(hex: Seq<char>) -> bool {
    let h = trim_hashes(encode_utf8(hex));
    h.len() == 6 && (is_continuation_byte(h[2]) || is_continuation_byte(h[4]))
}

fn hex_digit(b: u8) -> (r: Option<u8>)
    ensures
        match hex_digit_value(b) {
            Some(v) => r == Some(v as u8),
            None => r is None,
        },
{
    if 0x30 <= b && b <= 0x39 {
        Some(b - 0x30)
    } else if 0x61 <= b && b <= 0x66 {
        Some(b - 0x61 + 10)
    } else if 0x41 <= b && b <= 0x46 {
        Some(b - 0x41 + 10)
    } else {
        None
    }
}

fn hex_pair(a: u8, b: u8) -> (r: u64)
    ensures
        r == hex_pair_value(a, b),
        r < 256,
{
    if a == 0x2B {
        match hex_digit(b) {
            Some(v) => v as u64,
            None => 0,
        }
    } else {
        match (hex_digit(a), hex_digit(b)) {
            (Some(x), Some(y)) => 16 * (x as u64) + (y as u64),
            _ => 0,
        }
    }
}

fn luminance_rounds_below_half(r: u64, g: u64, b: u64) -> (res: bool)
    ensures
        res == rounds_below_half(r as nat, g as nat, b as nat),
{
    match (r, g, b) {
        (0, 204, 68) | (12, 174, 191) | (15, 195, 75) | (23, 175, 157) | (30, 186, 82)
        | (38, 166, 164) | (41, 187, 48) | (53, 157, 171) | (56, 178, 55) | (64, 158, 137)
        | (71, 169, 62) | (79, 149, 144) | (86, 160, 69) | (87, 129, 226) | (94, 140, 151)
        | (97, 161, 35) | (102, 120, 233) | (112, 152, 42) | (117, 111, 240)
        | (120, 132, 124) | (127, 143, 49) | (132, 102, 247) | (135, 123, 131)
        | (138, 144, 15) | (143, 103, 213) | (147, 93, 254) | (153, 135, 22)
        | (158, 94, 220) | (161, 115, 104) | (168, 126, 29) | (173, 85, 227)
        | (176, 106, 111) | (188, 76, 234) | (194, 118, 2) | (198, 108, 43) | (199, 77, 200)
        | (209, 109, 9) | (214, 68, 207) | (217, 89, 91) | (224, 100, 16) | (232, 80, 98)
        | (239, 91, 23) | (240, 60, 180) | (255, 51, 187) => true,
        _ => false,
    }
}

/// Whether the hexadecimal colour is dark (relative luminance below one half);
/// chooses the dark or the light syntax palette for code blocks.
pub fn is_dark_hex(hex: &str) -> (r: bool)
    ensures
        r == dark_hex(hex@),
{
    let bytes = hex.as_bytes();
    let ghost all = bytes@;
    let mut start: usize = 0;
    assert(all.skip(0) == all);
    while start < bytes.len() && bytes[start] == 0x23
        invariant
            start <= bytes.len(),
            all == bytes@,
            trim_hashes(all) == trim_hashes(all.skip(start as int)),
        decreases bytes.len() - start,
    {
        assert(all.skip(start as int).drop_first() == all.skip(start + 1));
        start = start + 1;
    }
    assert(trim_hashes(all.skip(start as int)) == all.skip(start as int));
    if bytes.len() - start != 6 {
        return true;
    }
    let r = hex_pair(bytes[start], bytes[start + 1]);
    let g = hex_pair(bytes[start + 2], bytes[start + 3]);
    let b = hex_pair(bytes[start + 4], bytes[start + 5]);
    let lum = 299 * r + 587 * g + 114 * b;
    lum < 127500 || (lum == 127500 && luminance_rounds_below_half(r, g, b))
}

/// Whether building a theme whose code background is `hex` fails: the text,
/// without leading `#`s, is six bytes long and one of its two-byte colour
/// channels would end inside a character.
pub fn hex_splits_char(hex: &str) -> (r: bool)
    ensures
        r == dark_hex_panics(hex@),
{
    let bytes = hex.as_bytes();
    let ghost all = bytes@;
    let mut start: usize = 0;
    assert(all.skip(0) == all);
    while start < bytes.len() && bytes[start] == 0x23
        invariant
            start <= bytes.len(),
            all == bytes@,
            trim_hashes(all) == trim_hashes(all.skip(start as int)),
        decreases bytes.len() - start,
    {
        assert(all.skip(start as int).drop_first() == all.skip(start + 1));
        start = start + 1;
    }
    assert(trim_hashes(all.skip(start as int)) == all.skip(start as int));
    if bytes.len() - start != 6 {
        return false;
    }
    let c2 = bytes[start + 2];
    let c4 = bytes[start + 4];
    (0x80 <= c2 && c2 <= 0xbf) || (0x80 <= c4 && c4 <= 0xbf)
}

/// An inline-style theme: the `style` attribute of every element the renderer
/// writes, and whether code blocks sit on a dark background.
#[derive(Clone)]
pub struct Theme {
    pub h1: String,
    pub h2: String,
    pub h3: String,
    pub h4: String,
    pub h5: String,
    pub h6: String,
    pub p: String,
    pub strong: String,
    pub em: String,
    pub del: String,
    pub code_inline: String,
    pub pre: String,
    pub code: String,
    /// Whether the code block background is dark: selects the dark or the light
    /// highlighting palette so that code stays readable on light themes.
    pub code_dark: bool,
    pub blockquote: String,
    pub ul: String,
    pub ol: String,
    pub li: String,
    pub a: String,
    pub table: String,
    pub th: String,
    pub td: String,
    pub td_alt: String,
    pub hr: String,
    pub placeholder: String,
    pub placeholder_label: String,
    pub placeholder_caption: String,
}

/// The mathematical value of a theme: the text of each style.
pub struct ThemeModel {
    pub h1: Seq<char>,
    pub h2: Seq<char>,
    pub h3: Seq<char>,
    pub h4: Seq<char>,
    pub h5: Seq<char>,
    pub h6: Seq<char>,
    pub p: Seq<char>,
    pub strong: Seq<char>,
    pub em: Seq<char>,
    pub del: Seq<char>,
    pub code_inline: Seq<char>,
    pub pre: Seq<char>,
    pub code: Seq<char>,
    pub code_dark: bool,
    pub blockquote: Seq<char>,
    pub ul: Seq<char>,
    pub ol: Seq<char>,
    pub li: Seq<char>,
    pub a: Seq<char>,
    pub table: Seq<char>,
    pub th: Seq<char>,
    pub td: Seq<char>,
    pub td_alt: Seq<char>,
    pub hr: Seq<char>,
    pub placeholder: Seq<char>,
    pub placeholder_label: Seq<char>,
    pub placeholder_caption: Seq<char>,
}

impl View for Theme {
    type V = ThemeModel;

    open spec fn view(&self) -> ThemeModel {
        ThemeModel {
            h1: self.h1@,
            h2: self.h2@,
            h3: self.h3@,
            h4: self.h4@,
            h5: self.h5@,
            h6: self.h6@,
            p: self.p@,
            strong: self.strong@,
            em: self.em@,
            del: self.del@,
            code_inline: self.code_inline@,
            pre: self.pre@,
            code: self.code@,
            code_dark: self.code_dark,
            blockquote: self.blockquote@,
            ul: self.ul@,
            ol: self.ol@,
            li: self.li@,
            a: self.a@,
            table: self.table@,
            th: self.th@,
            td: self.td@,
            td_alt: self.td_alt@,
            hr: self.hr@,
            placeholder: self.placeholder@,
            placeholder_label: self.placeholder_label@,
            placeholder_caption: self.placeholder_caption@,
        }
    }
}

/// `r` clamped into `[3, 4]`.
pub open spec fn clamp_3_4(r: nat) -> nat {
    if r < 3 {
        3
    } else if r > 4 {
        4
    } else {
        r
    }
}

/// The paragraph style: margin, line height, and a 2em first-line indent when asked.
pub open spec fn paragraph_style_of(lh: Seq<char>, indent: bool) -> Seq<char> {
    if indent {
        "margin:12px 0;line-height:"@ + lh + ";"@ + "text-indent:2em;"@
    } else {
        "margin:12px 0;line-height:"@ + lh + ";"@
    }
}

/// The theme that a specification describes.
pub open spec fn build_of(s: SpecModel) -> ThemeModel {
    let r = radius_of(s.head);
    let tables = table_styles_of(s.table, s.accent, s.soft, s.head_c, s.border);
    ThemeModel {
        h1: heading_style_of(s.head, 1, s.accent, s.head_c, s.soft, s.border),
        h2: heading_style_of(s.head, 2, s.accent, s.head_c, s.soft, s.border),
        h3: heading_style_of(s.head, 3, s.accent, s.head_c, s.soft, s.border),
        h4: heading_style_of(s.head, 4, s.accent, s.head_c, s.soft, s.border),
        h5: heading_style_of(s.head, 5, s.accent, s.head_c, s.soft, s.border),
        h6: heading_style_of(s.head, 6, s.accent, s.head_c, s.soft, s.border),
        p: paragraph_style_of(s.lh, s.indent),
        strong: "color:"@ + s.accent + ";font-weight:bold;"@,
        em: "font-style:italic;"@,
        del: "text-decoration:line-through;color:#999999;"@,
        code_inline: "background:"@ + s.inline_bg + ";color:"@ + s.inline_fg
            + ";padding:2px 5px;border-radius:"@ + decimal(clamp_3_4(r))
            + "px;font-family:Consolas,monospace;font-size:14px;"@,
        pre: "background:"@ + s.code_bg + ";color:"@ + s.code_fg
            + ";padding:14px;border-radius:"@ + decimal(r + 2)
            + "px;overflow:auto;font-family:Consolas,'Liberation Mono',Menlo,monospace;font-size:14px;line-height:1.6;margin:16px 0;"@,
        code: "font-family:Consolas,'Liberation Mono',Menlo,monospace;font-size:14px;"@,
        code_dark: dark_hex(s.code_bg),
        blockquote: quote_style_of(s.quote, s.accent, s.soft, s.border, r),
        ul: "margin:12px 0;padding-left:24px;"@,
        ol: "margin:12px 0;padding-left:24px;"@,
        li: "margin:6px 0;line-height:1.75;"@,
        a: "color:"@ + s.link + ";text-decoration:none;"@,
        table: tables.0,
        th: tables.1,
        td: tables.2,
        td_alt: tables.3,
        hr: rule_style_of(s.rule, s.border),
        placeholder: "border:2px dashed "@ + s.ph_border + ";background:"@ + s.ph_bg + ";color:"@
            + s.ph_fg + ";text-align:center;padding:16px;margin:16px 0;border-radius:"@ + decimal(
            r + 2,
        ) + "px;"@,
        placeholder_label: "margin:0;font-size:15px;font-weight:bold;"@,
        placeholder_caption: "margin:6px 0 0;font-size:12px;opacity:0.8;"@,
    }
}

fn paragraph_style(lh: &str, indent: bool) -> (r: String)
    ensures
        r@ == paragraph_style_of(lh@, indent),
{
    let mut s = fmt1("margin:12px 0;line-height:", lh, ";");
    if indent {
        s.append("text-indent:2em;");
    }
    s
}

/// Builds the inline-style theme of a specification.
fn build(s: Spec) -> (t: Theme)
    ensures
        t@ == build_of(s@),
{
    let (h1, h2, h3, h4, h5, h6) = headings(s.head, s.accent, s.head_c, s.soft, s.border);
    let r = radius(s.head);
    let (table, th, td, td_alt) = table_style(s.table, s.accent, s.soft, s.head_c, s.border);
    let r_inline = if r < 3 {
        3
    } else if r > 4 {
        4
    } else {
        r
    };
    let r_inline_s = decimal_string(r_inline);
    let r_block_s = decimal_string(r + 2);
    let code_inline = fmt3(
        "background:",
        s.inline_bg,
        ";color:",
        s.inline_fg,
        ";padding:2px 5px;border-radius:",
        r_inline_s.as_str(),
        "px;font-family:Consolas,monospace;font-size:14px;",
    );
    let pre = fmt3(
        "background:",
        s.code_bg,
        ";color:",
        s.code_fg,
        ";padding:14px;border-radius:",
        r_block_s.as_str(),
        "px;overflow:auto;font-family:Consolas,'Liberation Mono',Menlo,monospace;font-size:14px;line-height:1.6;margin:16px 0;",
    );
    let placeholder = fmt4(
        "border:2px dashed ",
        s.ph_border,
        ";background:",
        s.ph_bg,
        ";color:",
        s.ph_fg,
        ";text-align:center;padding:16px;margin:16px 0;border-radius:",
        r_block_s.as_str(),
        "px;",
    );
    Theme {
        h1,
        h2,
        h3,
        h4,
        h5,
        h6,
        p: paragraph_style(s.lh, s.indent),
        strong: fmt1("color:", s.accent, ";font-weight:bold;"),
        em: "font-style:italic;".to_owned(),
        del: "text-decoration:line-through;color:#999999;".to_owned(),
        code_inline,
        pre,
        code: "font-family:Consolas,'Liberation Mono',Menlo,monospace;font-size:14px;".to_owned(),
        code_dark: is_dark_hex(s.code_bg),
        blockquote: quote_style(s.quote, s.accent, s.soft, s.border, r),
        ul: "margin:12px 0;padding-left:24px;".to_owned(),
        ol: "margin:12px 0;padding-left:24px;".to_owned(),
        li: "margin:6px 0;line-height:1.75;".to_owned(),
        a: fmt1("color:", s.link, ";text-decoration:none;"),
        table,
        th,
        td,
        td_alt,
        hr: rule_style(s.rule, s.border),
        placeholder,
        placeholder_label: "margin:0;font-size:15px;font-weight:bold;".to_owned(),
        placeholder_caption: "margin:6px 0 0;font-size:12px;opacity:0.8;".to_owned(),
    }
}

/// The style of heading level `level` in a theme.
pub open spec fn level_style(t: ThemeModel, level: int) -> Seq<char> {
    if level == 1 {
        t.h1
    } else if level == 2 {
        t.h2
    } else if level == 3 {
        t.h3
    } else if level == 4 {
        t.h4
    } else if level == 5 {
        t.h5
    } else {
        t.h6
    }
}

impl Theme {
    /// The preset theme `id` (17 presets: 8 colour themes and 9 publishing
    /// themes); an unknown id gives the default theme.
    pub fn by_id(id: &str) -> (t: Theme)
        ensures
            t@ == build_of(preset(id@)),
    {
        build(preset_spec(id))
    }
}

// ===== serialisable specifications for the visual theme editor =====

/// The stable token of a heading layout (the stored form of custom themes).
pub open spec fn head_token_of(h: HeadStyle) -> Seq<char> {
    match h {
        HeadStyle::Bar => "bar"@,
        HeadStyle::Underline => "underline"@,
        HeadStyle::Block => "block"@,
        HeadStyle::Pill => "pill"@,
        HeadStyle::Bracket => "bracket"@,
        HeadStyle::Academic => "academic"@,
        HeadStyle::Magazine => "magazine"@,
        HeadStyle::Book => "book"@,
    }
}

/// The heading layout of a token; an unknown token gives `Bar`.
pub open spec fn head_from_of(s: Seq<char>) -> HeadStyle {
    if s == "underline"@ {
        HeadStyle::Underline
    } else if s == "block"@ {
        HeadStyle::Block
    } else if s == "pill"@ {
        HeadStyle::Pill
    } else if s == "bracket"@ {
        HeadStyle::Bracket
    } else if s == "academic"@ {
        HeadStyle::Academic
    } else if s == "magazine"@ {
        HeadStyle::Magazine
    } else if s == "book"@ {
        HeadStyle::Book
    } else {
        HeadStyle::Bar
    }
}

/// The stable token of a quote layout.
pub open spec fn quote_token_of(q: QuoteStyle) -> Seq<char> {
    match q {
        QuoteStyle::Bar => "bar"@,
        QuoteStyle::Card => "card"@,
        QuoteStyle::Rule => "rule"@,
    }
}

/// The quote layout of a token; an unknown token gives `Bar`.
pub open spec fn quote_from_of(s: Seq<char>) -> QuoteStyle {
    if s == "card"@ {
        QuoteStyle::Card
    } else if s == "rule"@ {
        QuoteStyle::Rule
    } else {
        QuoteStyle::Bar
    }
}

/// The stable token of a table layout.
pub open spec fn table_token_of(t: TableStyle) -> Seq<char> {
    match t {
        TableStyle::Grid => "grid"@,
        TableStyle::Striped => "striped"@,
        TableStyle::ThreeLine => "three_line"@,
    }
}

/// The table layout of a token; an unknown token gives `Grid`.
pub open spec fn table_from_of(s: Seq<char>) -> TableStyle {
    if s == "striped"@ {
        TableStyle::Striped
    } else if s == "three_line"@ {
        TableStyle::ThreeLine
    } else {
        TableStyle::Grid
    }
}

/// The stable token of a rule layout.
pub open spec fn rule_token_of(r: RuleStyle) -> Seq<char> {
    match r {
        RuleStyle::Solid => "solid"@,
        RuleStyle::Dashed => "dashed"@,
        RuleStyle::Double => "double"@,
    }
}

/// The rule layout of a token; an unknown token gives `Solid`.
pub open spec fn rule_from_of(s: Seq<char>) -> RuleStyle {
    if s == "dashed"@ {
        RuleStyle::Dashed
    } else if s == "double"@ {
        RuleStyle::Double
    } else {
        RuleStyle::Solid
    }
}

fn head_token(h: HeadStyle) -> (r: &'static str)
    ensures
        r@ == head_token_of(h),
{
    match h {
        HeadStyle::Bar => "bar",
        HeadStyle::Underline => "underline",
        HeadStyle::Block => "block",
        HeadStyle::Pill => "pill",
        HeadStyle::Bracket => "bracket",
        HeadStyle::Academic => "academic",
        HeadStyle::Magazine => "magazine",
        HeadStyle::Book => "book",
    }
}

fn head_from(s: &str) -> (r: HeadStyle)
    ensures
        r == head_from_of(s@),
{
    if same_text(s, "underline") {
        HeadStyle::Underline
    } else if same_text(s, "block") {
        HeadStyle::Block
    } else if same_text(s, "pill") {
        HeadStyle::Pill
    } else if same_text(s, "bracket") {
        HeadStyle::Bracket
    } else if same_text(s, "academic") {
        HeadStyle::Academic
    } else if same_text(s, "magazine") {
        HeadStyle::Magazine
    } else if same_text(s, "book") {
        HeadStyle::Book
    } else {
        HeadStyle::Bar
    }
}

fn quote_token(q: QuoteStyle) -> (r: &'static str)
    ensures
        r@ == quote_token_of(q),
{
    match q {
        QuoteStyle::Bar => "bar",
        QuoteStyle::Card => "card",
        QuoteStyle::Rule => "rule",
    }
}

fn quote_from(s: &str) -> (r: QuoteStyle)
    ensures
        r == quote_from_of(s@),
{
    if same_text(s, "card") {
        QuoteStyle::Card
    } else if same_text(s, "rule") {
        QuoteStyle::Rule
    } else {
        QuoteStyle::Bar
    }
}

fn table_token(t: TableStyle) -> (r: &'static str)
    ensures
        r@ == table_token_of(t),
{
    match t {
        TableStyle::Grid => "grid",
        TableStyle::Striped => "striped",
        TableStyle::ThreeLine => "three_line",
    }
}

fn table_from(s: &str) -> (r: TableStyle)
    ensures
        r == table_from_of(s@),
{
    if same_text(s, "striped") {
        TableStyle::Striped
    } else if same_text(s, "three_line") {
        TableStyle::ThreeLine
    } else {
        TableStyle::Grid
    }
}

fn rule_token(r: RuleStyle) -> (s: &'static str)
    ensures
        s@ == rule_token_of(r),
{
    match r {
        RuleStyle::Solid => "solid",
        RuleStyle::Dashed => "dashed",
        RuleStyle::Double => "double",
    }
}

fn rule_from(s: &str) -> (r: RuleStyle)
    ensures
        r == rule_from_of(s@),
{
    if same_text(s, "dashed") {
        RuleStyle::Dashed
    } else if same_text(s, "double") {
        RuleStyle::Double
    } else {
        RuleStyle::Solid
    }
}

/// A serialisable theme specification for the visual theme editor: colours as
/// owned strings, layouts as string tokens (`head`: bar, underline, block, pill,
/// bracket, academic, magazine, book; `quote`: bar, card, rule; `table`: grid,
/// striped, three_line; `rule`: solid, dashed, double).
#[derive(Clone)]
pub struct ThemeSpec {
    pub head: String,
    pub quote: String,
    pub table: String,
    pub rule: String,
    pub indent: bool,
    pub lh: String,
    pub accent: String,
    pub soft: String,
    pub head_c: String,
    pub link: String,
    pub code_bg: String,
    pub code_fg: String,
    pub inline_bg: String,
    pub inline_fg: String,
    pub border: String,
    pub ph_border: String,
    pub ph_bg: String,
    pub ph_fg: String,
}

/// The mathematical value of a serialisable specification.
pub struct ThemeSpecModel {
    pub head: Seq<char>,
    pub quote: Seq<char>,
    pub table: Seq<char>,
    pub rule: Seq<char>,
    pub indent: bool,
    pub lh: Seq<char>,
    pub accent: Seq<char>,
    pub soft: Seq<char>,
    pub head_c: Seq<char>,
    pub link: Seq<char>,
    pub code_bg: Seq<char>,
    pub code_fg: Seq<char>,
    pub inline_bg: Seq<char>,
    pub inline_fg: Seq<char>,
    pub border: Seq<char>,
    pub ph_border: Seq<char>,
    pub ph_bg: Seq<char>,
    pub ph_fg: Seq<char>,
}

impl View for ThemeSpec {
    type V = ThemeSpecModel;

    open spec fn view(&self) -> ThemeSpecModel {
        ThemeSpecModel {
            head: self.head@,
            quote: self.quote@,
            table: self.table@,
            rule: self.rule@,
            indent: self.indent,
            lh: self.lh@,
            accent: self.accent@,
            soft: self.soft@,
            head_c: self.head_c@,
            link: self.link@,
            code_bg: self.code_bg@,
            code_fg: self.code_fg@,
            inline_bg: self.inline_bg@,
            inline_fg: self.inline_fg@,
            border: self.border@,
            ph_border: self.ph_border@,
            ph_bg: self.ph_bg@,
            ph_fg: self.ph_fg@,
        }
    }
}

/// A specification written with tokens.
pub open spec fn tokens_of(s: SpecModel) -> ThemeSpecModel {
    ThemeSpecModel {
        head: head_token_of(s.head),
        quote: quote_token_of(s.quote),
        table: table_token_of(s.table),
        rule: rule_token_of(s.rule),
        indent: s.indent,
        lh: s.lh,
        accent: s.accent,
        soft: s.soft,
        head_c: s.head_c,
        link: s.link,
        code_bg: s.code_bg,
        code_fg: s.code_fg,
        inline_bg: s.inline_bg,
        inline_fg: s.inline_fg,
        border: s.border,
        ph_border: s.ph_border,
        ph_bg: s.ph_bg,
        ph_fg: s.ph_fg,
    }
}

/// The specification that tokens select (unknown tokens fall back).
pub open spec fn spec_of_tokens(t: ThemeSpecModel) -> SpecModel {
    SpecModel {
        head: head_from_of(t.head),
        quote: quote_from_of(t.quote),
        table: table_from_of(t.table),
        rule: rule_from_of(t.rule),
        indent: t.indent,
        lh: t.lh,
        accent: t.accent,
        soft: t.soft,
        head_c: t.head_c,
        link: t.link,
        code_bg: t.code_bg,
        code_fg: t.code_fg,
        inline_bg: t.inline_bg,
        inline_fg: t.inline_fg,
        border: t.border,
        ph_border: t.ph_border,
        ph_bg: t.ph_bg,
        ph_fg: t.ph_fg,
    }
}

impl ThemeSpec {
    /// An editable copy of the preset `id` (the editor's "start from a preset").
    pub fn from_preset(id: &str) -> (r: ThemeSpec)
        ensures
            r@ == tokens_of(preset(id@)),
            spec_of_tokens(r@) == preset(id@),
            !dark_hex_panics(r.code_bg@),
    {
        proof {
            crate::laws::law_preset_copies_build(id@);
            crate::laws::law_spec_tokens_round_trip(preset(id@));
        }
        let s = preset_spec(id);
        ThemeSpec {
            head: head_token(s.head).to_owned(),
            quote: quote_token(s.quote).to_owned(),
            table: table_token(s.table).to_owned(),
            rule: rule_token(s.rule).to_owned(),
            indent: s.indent,
            lh: s.lh.to_owned(),
            accent: s.accent.to_owned(),
            soft: s.soft.to_owned(),
            head_c: s.head_c.to_owned(),
            link: s.link.to_owned(),
            code_bg: s.code_bg.to_owned(),
            code_fg: s.code_fg.to_owned(),
            inline_bg: s.inline_bg.to_owned(),
            inline_fg: s.inline_fg.to_owned(),
            border: s.border.to_owned(),
            ph_border: s.ph_border.to_owned(),
            ph_bg: s.ph_bg.to_owned(),
            ph_fg: s.ph_fg.to_owned(),
        }
    }

    /// The inline-style theme of this specification, without the global font,
    /// size and alignment parameters (`themed_spec` adds those). A code
    /// background whose bytes 2 or 4 (after the `#`s) fall inside a character is
    /// refused, since its channels cannot be read.
    pub fn to_theme(&self) -> (t: Theme)
        requires
            !dark_hex_panics(self.code_bg@),
        ensures
            t@ == build_of(spec_of_tokens(self@)),
    {
        build(
            Spec {
                head: head_from(self.head.as_str()),
                quote: quote_from(self.quote.as_str()),
                table: table_from(self.table.as_str()),
                rule: rule_from(self.rule.as_str()),
                indent: self.indent,
                lh: self.lh.as_str(),
                accent: self.accent.as_str(),
                soft: self.soft.as_str(),
                head_c: self.head_c.as_str(),
                link: self.link.as_str(),
                code_bg: self.code_bg.as_str(),
                code_fg: self.code_fg.as_str(),
                inline_bg: self.inline_bg.as_str(),
                inline_fg: self.inline_fg.as_str(),
                border: self.border.as_str(),
                ph_border: self.ph_border.as_str(),
                ph_bg: self.ph_bg.as_str(),
                ph_fg: self.ph_fg.as_str(),
            },
        )
    }
}

impl Default for ThemeSpec {
    /// The specification of the default preset.
    fn default() -> (r: ThemeSpec)
        ensures
            r@ == tokens_of(preset("default"@)),
            !dark_hex_panics(r.code_bg@),
    {
        ThemeSpec::from_preset("default")
    }
}

/// A catalogue entry: preset id, Chinese and English names, category.
#[derive(Clone)]
pub struct ThemeMeta {
    pub id: String,
    pub name_zh: String,
    pub name_en: String,
    pub category: String,
}

impl View for ThemeMeta {
    type V = (Seq<char>, Seq<char>, Seq<char>, Seq<char>);

    open spec fn view(&self) -> (Seq<char>, Seq<char>, Seq<char>, Seq<char>) {
        (self.id@, self.name_zh@, self.name_en@, self.category@)
    }
}

fn theme_meta(id: &str, zh: &str, en: &str, cat: &str) -> (m: ThemeMeta)
    ensures
        m@ == (id@, zh@, en@, cat@),
{
    ThemeMeta { id: id.to_owned(), name_zh: zh.to_owned(), name_en: en.to_owned(), category: cat.to_owned() }
}

/// The preset catalogue: id, Chinese name, English name and category
/// (`color` or `publish`), in menu order.
pub open spec fn theme_catalogue() -> Seq<(Seq<char>, Seq<char>, Seq<char>, Seq<char>)> {
    seq![
        ("default"@, "活力橙"@, "Vivid Orange"@, "color"@),
        ("wechat"@, "微信绿"@, "WeChat Green"@, "color"@),
        ("minimal"@, "极简黑白"@, "Minimal Mono"@, "color"@),
        ("purple"@, "暗夜紫"@, "Royal Purple"@, "color"@),
        ("teal"@, "清新青"@, "Fresh Teal"@, "color"@),
        ("crimson"@, "暖阳红"@, "Warm Crimson"@, "color"@),
        ("forest"@, "森林绿"@, "Forest Green"@, "color"@),
        ("morandi"@, "莫兰迪"@, "Morandi Mist"@, "color"@),
        ("business"@, "商务"@, "Business"@, "publish"@),
        ("tech"@, "科技"@, "Tech"@, "publish"@),
        ("academic"@, "学术"@, "Academic"@, "publish"@),
        ("research"@, "科研"@, "Research"@, "publish"@),
        ("workplace"@, "职场"@, "Workplace"@, "publish"@),
        ("report"@, "报告"@, "Report"@, "publish"@),
        ("paper"@, "论文"@, "Paper"@, "publish"@),
        ("magazine"@, "杂志"@, "Magazine"@, "publish"@),
        ("book"@, "书籍"@, "Book"@, "publish"@),
    ]
}

/// The catalogue of preset themes, in menu order: 8 colour themes, then 9
/// publishing themes.
pub fn available_themes() -> (r: Vec<ThemeMeta>)
    ensures
        r@.map_values(|m: ThemeMeta| m@) == theme_catalogue(),
{
    let mut v: Vec<ThemeMeta> = Vec::new();
    v.push(theme_meta("default", "活力橙", "Vivid Orange", "color"));
    v.push(theme_meta("wechat", "微信绿", "WeChat Green", "color"));
    v.push(theme_meta("minimal", "极简黑白", "Minimal Mono", "color"));
    v.push(theme_meta("purple", "暗夜紫", "Royal Purple", "color"));
    v.push(theme_meta("teal", "清新青", "Fresh Teal", "color"));
    v.push(theme_meta("crimson", "暖阳红", "Warm Crimson", "color"));
    v.push(theme_meta("forest", "森林绿", "Forest Green", "color"));
    v.push(theme_meta("morandi", "莫兰迪", "Morandi Mist", "color"));
    v.push(theme_meta("business", "商务", "Business", "publish"));
    v.push(theme_meta("tech", "科技", "Tech", "publish"));
    v.push(theme_meta("academic", "学术", "Academic", "publish"));
    v.push(theme_meta("research", "科研", "Research", "publish"));
    v.push(theme_meta("workplace", "职场", "Workplace", "publish"));
    v.push(theme_meta("report", "报告", "Report", "publish"));
    v.push(theme_meta("paper", "论文", "Paper", "publish"));
    v.push(theme_meta("magazine", "杂志", "Magazine", "publish"));
    v.push(theme_meta("book", "书籍", "Book", "publish"));
    assert(v@.map_values(|m: ThemeMeta| m@) =~= theme_catalogue());
    v
}
/// The font stack of a font token; an unknown token gives the system sans-serif stack.
pub open spec fn font_stack_of(token: Seq<char>) -> Seq<char> {
    if token == "serif"@ {
        "Georgia,'Times New Roman','Songti SC','SimSun',serif"@
    } else if token == "mono"@ {
        "Consolas,'Courier New',monospace"@
    } else if token == "kai"@ {
        "'Kaiti SC','KaiTi','STKaiti',serif"@
    } else if token == "song"@ {
        "'Songti SC','SimSun',serif"@
    } else if token == "hei"@ {
        "'Heiti SC','SimHei','Microsoft YaHei',sans-serif"@
    } else if token == "fangsong"@ {
        "'FangSong','STFangsong','FangSong_GB2312',serif"@
    } else if token == "yahei"@ {
        "'Microsoft YaHei','微软雅黑','PingFang SC',sans-serif"@
    } else if token == "pingfang"@ {
        "'PingFang SC','Hiragino Sans GB','Microsoft YaHei',sans-serif"@
    } else if token == "arial"@ {
        "Arial,Helvetica,'PingFang SC','Microsoft YaHei',sans-serif"@
    } else if token == "georgia"@ {
        "Georgia,'Times New Roman',serif"@
    } else if token == "times"@ {
        "'Times New Roman',Times,serif"@
    } else if token == "verdana"@ {
        "Verdana,Geneva,Tahoma,sans-serif"@
    } else if token == "tahoma"@ {
        "Tahoma,Verdana,'Segoe UI',sans-serif"@
    } else if token == "trebuchet"@ {
        "'Trebuchet MS','Lucida Grande',sans-serif"@
    } else if token == "courier"@ {
        "'Courier New',Courier,monospace"@
    } else if token == "consolas"@ {
        "Consolas,'Cascadia Mono','Courier New',monospace"@
    } else if token == "cambria"@ {
        "Cambria,Georgia,serif"@
    } else {
        "-apple-system,BlinkMacSystemFont,'Segoe UI','PingFang SC','Microsoft YaHei',sans-serif"@
    }
}

/// The CSS font stack of a font token (system fonts only: WeChat drops web fonts).
pub fn font_stack(token: &str) -> (r: &'static str)
    ensures
        r@ == font_stack_of(token@),
{
    if same_text(token, "serif") {
        "Georgia,'Times New Roman','Songti SC','SimSun',serif"
    } else if same_text(token, "mono") {
        "Consolas,'Courier New',monospace"
    } else if same_text(token, "kai") {
        "'Kaiti SC','KaiTi','STKaiti',serif"
    } else if same_text(token, "song") {
        "'Songti SC','SimSun',serif"
    } else if same_text(token, "hei") {
        "'Heiti SC','SimHei','Microsoft YaHei',sans-serif"
    } else if same_text(token, "fangsong") {
        "'FangSong','STFangsong','FangSong_GB2312',serif"
    } else if same_text(token, "yahei") {
        "'Microsoft YaHei','微软雅黑','PingFang SC',sans-serif"
    } else if same_text(token, "pingfang") {
        "'PingFang SC','Hiragino Sans GB','Microsoft YaHei',sans-serif"
    } else if same_text(token, "arial") {
        "Arial,Helvetica,'PingFang SC','Microsoft YaHei',sans-serif"
    } else if same_text(token, "georgia") {
        "Georgia,'Times New Roman',serif"
    } else if same_text(token, "times") {
        "'Times New Roman',Times,serif"
    } else if same_text(token, "verdana") {
        "Verdana,Geneva,Tahoma,sans-serif"
    } else if same_text(token, "tahoma") {
        "Tahoma,Verdana,'Segoe UI',sans-serif"
    } else if same_text(token, "trebuchet") {
        "'Trebuchet MS','Lucida Grande',sans-serif"
    } else if same_text(token, "courier") {
        "'Courier New',Courier,monospace"
    } else if same_text(token, "consolas") {
        "Consolas,'Cascadia Mono','Courier New',monospace"
    } else if same_text(token, "cambria") {
        "Cambria,Georgia,serif"
    } else {
        "-apple-system,BlinkMacSystemFont,'Segoe UI','PingFang SC','Microsoft YaHei',sans-serif"
    }
}
/// Global typesetting parameters of an article: font family token, body font
/// size in pixels, alignment token. They are appended to the theme's inline
/// styles and never touch the Markdown source.
#[derive(Clone)]
pub struct ThemeParams {
    pub font_family: String,
    pub font_size: u32,
    pub align: String,
}

impl View for ThemeParams {
    type V = (Seq<char>, nat, Seq<char>);

    open spec fn view(&self) -> (Seq<char>, nat, Seq<char>) {
        (self.font_family@, self.font_size as nat, self.align@)
    }
}

/// The default font family token, `sans`.
pub fn default_font_family() -> (r: String)
    ensures
        r@ == "sans"@,
{
    "sans".to_owned()
}

/// The default body font size, 16px.
pub fn default_font_size() -> (r: u32)
    ensures
        r == 16,
{
    16
}

/// The default alignment token, `left`.
pub fn default_align() -> (r: String)
    ensures
        r@ == "left"@,
{
    "left".to_owned()
}

impl Default for ThemeParams {
    /// Sans-serif, 16px, left-aligned.
    fn default() -> (r: ThemeParams)
        ensures
            r@ == ("sans"@, 16nat, "left"@),
    {
        ThemeParams {
            font_family: default_font_family(),
            font_size: default_font_size(),
            align: default_align(),
        }
    }
}

/// The CSS alignment of an alignment token; an unknown token gives `left`.
pub open spec fn align_css_of(a: Seq<char>) -> Seq<char> {
    if a == "center"@ {
        "center"@
    } else if a == "right"@ {
        "right"@
    } else if a == "justify"@ {
        "justify"@
    } else {
        "left"@
    }
}

/// The CSS alignment of an alignment token.
pub fn align_css(a: &str) -> (r: &'static str)
    ensures
        r@ == align_css_of(a@),
{
    if same_text(a, "center") {
        "center"
    } else if same_text(a, "right") {
        "right"
    } else if same_text(a, "justify") {
        "justify"
    } else {
        "left"
    }
}

/// `theme` with the global parameters appended: the font family to body text,
/// list items, quotes, table cells and all six headings; the font size to body
/// text and list items; the alignment to body text. Later declarations win in
/// inline CSS, so appending overrides the preset. Headings keep their own size
/// scale and alignment, which belong to the theme's layout.
pub open spec fn params_applied(theme: ThemeModel, p: (Seq<char>, nat, Seq<char>)) -> ThemeModel {
    let ff = "font-family:"@ + font_stack_of(p.0) + ";"@;
    let fs = "font-size:"@ + decimal(p.1) + "px;"@;
    let al = "text-align:"@ + align_css_of(p.2) + ";"@;
    ThemeModel {
        p: theme.p + ff + fs + al,
        li: theme.li + ff + fs,
        blockquote: theme.blockquote + ff,
        td: theme.td + ff,
        td_alt: theme.td_alt + ff,
        th: theme.th + ff,
        h1: theme.h1 + ff,
        h2: theme.h2 + ff,
        h3: theme.h3 + ff,
        h4: theme.h4 + ff,
        h5: theme.h5 + ff,
        h6: theme.h6 + ff,
        ..theme
    }
}

fn apply_params(t: Theme, p: &ThemeParams) -> (r: Theme)
    ensures
        r@ == params_applied(t@, p@),
{
    let ff = fmt1("font-family:", font_stack(p.font_family.as_str()), ";");
    let size = decimal_string(p.font_size as u64);
    let fs = fmt1("font-size:", size.as_str(), "px;");
    let al = fmt1("text-align:", align_css(p.align.as_str()), ";");
    let mut t = t;
    let p1 = cat(t.p.as_str(), ff.as_str());
    let p2 = cat(p1.as_str(), fs.as_str());
    t.p = cat(p2.as_str(), al.as_str());
    let li1 = cat(t.li.as_str(), ff.as_str());
    t.li = cat(li1.as_str(), fs.as_str());
    t.blockquote = cat(t.blockquote.as_str(), ff.as_str());
    t.td = cat(t.td.as_str(), ff.as_str());
    t.td_alt = cat(t.td_alt.as_str(), ff.as_str());
    t.th = cat(t.th.as_str(), ff.as_str());
    t.h1 = cat(t.h1.as_str(), ff.as_str());
    t.h2 = cat(t.h2.as_str(), ff.as_str());
    t.h3 = cat(t.h3.as_str(), ff.as_str());
    t.h4 = cat(t.h4.as_str(), ff.as_str());
    t.h5 = cat(t.h5.as_str(), ff.as_str());
    t.h6 = cat(t.h6.as_str(), ff.as_str());
    t
}

/// The preset theme `id` with the global parameters applied.
pub fn themed(id: &str, p: &ThemeParams) -> (t: Theme)
    ensures
        t@ == params_applied(build_of(preset(id@)), p@),
{
    apply_params(Theme::by_id(id), p)
}

/// The theme of an editor specification with the global parameters applied;
/// custom themes and presets go through the same builder.
pub fn themed_spec(spec: &ThemeSpec, p: &ThemeParams) -> (t: Theme)
    requires
        !dark_hex_panics(spec.code_bg@),
    ensures
        t@ == params_applied(build_of(spec_of_tokens(spec@)), p@),
{
    apply_params(spec.to_theme(), p)
}

} // verus!
