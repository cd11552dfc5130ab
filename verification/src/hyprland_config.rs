//! Window-rule text generation: the selector built from the chosen window
//! properties, the rule line, and the config file name derived from the
//! window's title and class.

use vstd::prelude::*;
use vstd::string::StrSliceExecFns;
use vstd::string::StringExecFns;
use crate::geometry::WindowRecord;

verus! {

/// Which window property a rule selects the window by.
#[derive(Clone, Copy, PartialEq, Eq, Structural, Debug)]
pub enum SelectWindowBy {
    Title,
    Class,
    InitialClass,
    InitialTitle,
}

/// Whether the rule floats or tiles the window.
#[derive(Clone, Copy, PartialEq, Eq, Structural, Debug)]
pub enum WindowPlacement {
    Float,
    Tile,
}

/// The rule parameters chosen on the command line.
#[derive(Clone, Copy, PartialEq, Eq, Structural, Debug)]
pub struct WindowOptions {
    pub window_placement: WindowPlacement,
    pub fullscreen: bool,
}

/// The placement keyword of a rule line.
pub open spec fn placement_spec(p: WindowPlacement) -> Seq<char> {
    match p {
        WindowPlacement::Float => "float"@,
        WindowPlacement::Tile => "tile"@,
    }
}

/// The placement keyword as text.
pub fn placement_str(p: &WindowPlacement) -> (s: &'static str)
    ensures
        s@ == placement_spec(*p),
{
    match p {
        WindowPlacement::Float => "float",
        WindowPlacement::Tile => "tile",
    }
}

/// One selector of a rule: the chosen property name and the window's value
/// for it, parenthesized.
pub open spec fn select_part(sb: SelectWindowBy, c: WindowRecord) -> Seq<char> {
    match sb {
        SelectWindowBy::Title => "title:("@ + c.title@ + ")"@,
        SelectWindowBy::Class => "class:("@ + c.class@ + ")"@,
        SelectWindowBy::InitialClass => "initialClass:("@ + c.initial_class@ + ")"@,
        SelectWindowBy::InitialTitle => "initialTitle:("@ + c.initial_title@ + ")"@,
    }
}

/// The first `n` selectors joined with `", "`.
pub open spec fn selector_prefix(c: WindowRecord, list: Seq<SelectWindowBy>, n: int) -> Seq<char>
    decreases n,
{
    if n <= 0 {
        Seq::empty()
    } else if n == 1 {
        select_part(list[0], c)
    } else {
        selector_prefix(c, list, n - 1) + ", "@ + select_part(list[n - 1], c)
    }
}

/// All selectors of the rule, joined with `", "`.
pub open spec fn selector_spec(c: WindowRecord, list: Seq<SelectWindowBy>) -> Seq<char> {
    selector_prefix(c, list, list.len() as int)
}

/// Builds the selector text of a rule for the given window.
pub fn selector_string(client: &WindowRecord, list: &Vec<SelectWindowBy>) -> (r: String)
    ensures
        r@ == selector_spec(*client, list@),
{
    let mut out = String::new();
    let mut i: usize = 0;
    while i < list.len()
        invariant
            0 <= i <= list@.len(),
            out@ == selector_prefix(*client, list@, i as int),
        decreases list@.len() - i,
    {
        if i > 0 {
            out.append(", ");
        }
        match list[i] {
            SelectWindowBy::Title => {
                out.append("title:(");
                out.append(client.title.as_str());
                out.append(")");
            },
            SelectWindowBy::Class => {
                out.append("class:(");
                out.append(client.class.as_str());
                out.append(")");
            },
            SelectWindowBy::InitialClass => {
                out.append("initialClass:(");
                out.append(client.initial_class.as_str());
                out.append(")");
            },
            SelectWindowBy::InitialTitle => {
                out.append("initialTitle:(");
                out.append(client.initial_title.as_str());
                out.append(")");
            },
        }
        proof {
            assert(out@ =~= selector_prefix(*client, list@, i as int + 1));
        }
        i += 1;
    }
    out
}

/// A whole rule line: the placement keyword, a comma, the selectors.
pub open spec fn rule_line_spec(options: WindowOptions, c: WindowRecord, list: Seq<
    SelectWindowBy,
>) -> Seq<char> {
    placement_spec(options.window_placement) + ", "@ + selector_spec(c, list)
}

/// Builds the rule line written under the `windowrule` key.
pub fn window_rule_line(options: &WindowOptions, client: &WindowRecord, list: &Vec<SelectWindowBy>)
    -> (r: String)
    ensures
        r@ == rule_line_spec(*options, *client, list@),
{
    let mut out = String::new();
    out.append(placement_str(&options.window_placement));
    out.append(", ");
    let selector = selector_string(client, list);
    out.append(selector.as_str());
    proof {
        assert(out@ =~= rule_line_spec(*options, *client, list@));
    }
    out
}

/// What remains of a text after the non-word characters are removed; the
/// exact character class is the pattern engine's.
pub uninterp spec fn word_chars_of(s: Seq<char>) -> Seq<char>;

/// Relies on `regex::Regex::replace_all` with the fixed pattern `(?m)\W+`
/// and an empty replacement: every run of non-word characters is removed,
/// and the result depends on the input characters alone.
#[verifier::external_body]
fn strip_non_word(s: &str) -> (r: String)
    ensures
        r@ == word_chars_of(s@),
        s@.len() == 0 ==> r@.len() == 0,
{
    let re = regex::Regex::new(r"(?m)\W+").unwrap();
    re.replace_all(s, "").into_owned()
}

/// At most the first `n` characters of a text.
pub open spec fn truncated(s: Seq<char>, n: int) -> Seq<char> {
    if s.len() <= n {
        s
    } else {
        s.take(n)
    }
}

/// The config file name derived from a window: title and class, each
/// stripped to its word characters and cut to eight characters, joined by
/// a dash, with the config extension.
pub open spec fn file_name_spec(title: Seq<char>, class: Seq<char>) -> Seq<char> {
    truncated(word_chars_of(title), 8) + "-"@ + truncated(word_chars_of(class), 8) + ".conf"@
}

/// Builds the rule's config file name from the window's title and class.
pub fn config_file_name(title: &str, class: &str) -> (r: String)
    ensures
        r@ == file_name_spec(title@, class@),
{
    let stripped_title = strip_non_word(title);
    let stripped_class = strip_non_word(class);
    let title_len = stripped_title.as_str().unicode_len();
    let title_cut: usize = if title_len < 8 {
        title_len
    } else {
        8
    };
    let class_len = stripped_class.as_str().unicode_len();
    let class_cut: usize = if class_len < 8 {
        class_len
    } else {
        8
    };
    let title_part = stripped_title.as_str().substring_char(0, title_cut);
    let class_part = stripped_class.as_str().substring_char(0, class_cut);
    let mut out = String::new();
    out.append(title_part);
    out.append("-");
    out.append(class_part);
    out.append(".conf");
    proof {
        assert(title_part@ =~= truncated(word_chars_of(title@), 8));
        assert(class_part@ =~= truncated(word_chars_of(class@), 8));
        assert(out@ =~= file_name_spec(title@, class@));
    }
    out
}

} // verus!
