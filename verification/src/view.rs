//! Pure rendering: the content of each screen as plain text lines, a
//! function of the active screen and the savegame-name buffer alone.

use crate::state::MenuItem;
use vstd::prelude::*;

verus! {

/// Text colour of a rendered line.
#[derive(Copy, Clone, Debug, PartialEq, Eq)]
pub enum TextColor {
    Default,
    LightBlue,
    Green,
}

/// One line of screen content with its colour.
pub struct StyledLine {
    pub text: String,
    pub color: TextColor,
}

/// The rendered content of one screen: its title and its body lines.
pub struct ScreenView {
    pub title: String,
    pub lines: Vec<StyledLine>,
}

/// The content of a sequence of lines: each line's text and colour.
pub open spec fn line_views(lines: Seq<StyledLine>) -> Seq<(Seq<char>, TextColor)> {
    lines.map_values(|l: StyledLine| (l.text@, l.color))
}

/// The title of each screen.
pub open spec fn screen_title(item: MenuItem) -> Seq<char> {
    match item {
        MenuItem::Opening => "Opening"@,
        MenuItem::Home => "Home"@,
        MenuItem::SavegameName => "Savegame Name"@,
    }
}

/// The body of the home screen: a welcome banner, with the product name
/// highlighted.
pub open spec fn home_content() -> Seq<(Seq<char>, TextColor)> {
    seq![
        (""@, TextColor::Default),
        ("Welcome"@, TextColor::Default),
        (""@, TextColor::Default),
        ("to"@, TextColor::Default),
        (""@, TextColor::Default),
        ("pet-CLI"@, TextColor::LightBlue),
        (""@, TextColor::Default),
        (
            "Hello Press 'p' to access pets, 'a' to add random new pets and 'd' to delete the currently selected pet."@,
            TextColor::Default,
        ),
    ]
}

/// The body of the opening screen: the splash text, with the game title
/// highlighted.
pub open spec fn opening_content() -> Seq<(Seq<char>, TextColor)> {
    seq![
        ("Liberal Crime Squad"@, TextColor::Green),
        (""@, TextColor::Default),
        ("Inspired by the 1983 version of Oubliette"@, TextColor::Default),
        (""@, TextColor::Default),
        ("\"Let's get on with it!\""@, TextColor::Default),
        ("-- Grimith"@, TextColor::Default),
        (""@, TextColor::Default),
        ("v3.9 Copyright (C) 2002-4, Tarn Adams"@, TextColor::Default),
        (""@, TextColor::Default),
        ("A Bay 12 Games Production"@, TextColor::Default),
        (""@, TextColor::Default),
        ("http://bay12games.com/lcs/"@, TextColor::Default),
        (""@, TextColor::Default),
        ("A Rust Rewright, mostly for fun and learning"@, TextColor::Default),
        ("Maintained by the Open Source Community"@, TextColor::Default),
        ("https://github.com/cinmay/Liberal-Crime-Squad"@, TextColor::Default),
        (""@, TextColor::Default),
        (
            "A huge thanks to the 4.12 community for their work on imporoving game."@,
            TextColor::Default,
        ),
        ("https://github.com/King-Drake/Liberal-Crime-Squad"@, TextColor::Default),
        (""@, TextColor::Default),
        (
            "Press ESC now to quit. Quitting later causes your progress to be saved."@,
            TextColor::Default,
        ),
        ("Press any other key to pursue your Liberal Agenda!"@, TextColor::Default),
    ]
}

/// The body of the savegame-name screen: the prompt, then the buffer as
/// typed so far.
pub open spec fn savegame_content(buf: Seq<char>) -> Seq<(Seq<char>, TextColor)> {
    seq![
        ("In what world will you pursue your Liberal Agenda?"@, TextColor::Default),
        ("Enter a name for the save file."@, TextColor::Default),
        (buf, TextColor::Default),
    ]
}

/// The body of whichever screen is active; only the savegame screen reads
/// the buffer.
pub open spec fn screen_content(item: MenuItem, buf: Seq<char>) -> Seq<(Seq<char>, TextColor)> {
    match item {
        MenuItem::Opening => opening_content(),
        MenuItem::Home => home_content(),
        MenuItem::SavegameName => savegame_content(buf),
    }
}

/// One line of the given text and colour.
fn styled(text: &str, color: TextColor) -> (l: StyledLine)
    ensures
        l.text@ == text@,
        l.color == color,
{
    StyledLine { text: text.to_owned(), color: color }
}

/// The home screen's view.
pub fn render_home() -> (v: ScreenView)
    ensures
        v.title@ == screen_title(MenuItem::Home),
        line_views(v.lines@) == home_content(),
{
    let mut lines: Vec<StyledLine> = Vec::new();
    lines.push(styled("", TextColor::Default));
    lines.push(styled("Welcome", TextColor::Default));
    lines.push(styled("", TextColor::Default));
    lines.push(styled("to", TextColor::Default));
    lines.push(styled("", TextColor::Default));
    lines.push(styled("pet-CLI", TextColor::LightBlue));
    lines.push(styled("", TextColor::Default));
    lines.push(
        styled(
            "Hello Press 'p' to access pets, 'a' to add random new pets and 'd' to delete the currently selected pet.",
            TextColor::Default,
        ),
    );
    let v = ScreenView { title: "Home".to_owned(), lines };
    proof {
        assert(line_views(v.lines@) =~= home_content());
    }
    v
}

/// The opening screen's view.
pub fn render_opening() -> (v: ScreenView)
    ensures
        v.title@ == screen_title(MenuItem::Opening),
        line_views(v.lines@) == opening_content(),
{
    let mut lines: Vec<StyledLine> = Vec::new();
    lines.push(styled("Liberal Crime Squad", TextColor::Green));
    lines.push(styled("", TextColor::Default));
    lines.push(styled("Inspired by the 1983 version of Oubliette", TextColor::Default));
    lines.push(styled("", TextColor::Default));
    lines.push(styled("\"Let's get on with it!\"", TextColor::Default));
    lines.push(styled("-- Grimith", TextColor::Default));
    lines.push(styled("", TextColor::Default));
    lines.push(styled("v3.9 Copyright (C) 2002-4, Tarn Adams", TextColor::Default));
    lines.push(styled("", TextColor::Default));
    lines.push(styled("A Bay 12 Games Production", TextColor::Default));
    lines.push(styled("", TextColor::Default));
    lines.push(styled("http://bay12games.com/lcs/", TextColor::Default));
    lines.push(styled("", TextColor::Default));
    lines.push(styled("A Rust Rewright, mostly for fun and learning", TextColor::Default));
    lines.push(styled("Maintained by the Open Source Community", TextColor::Default));
    lines.push(styled("https://github.com/cinmay/Liberal-Crime-Squad", TextColor::Default));
    lines.push(styled("", TextColor::Default));
    lines.push(
        styled(
            "A huge thanks to the 4.12 community for their work on imporoving game.",
            TextColor::Default,
        ),
    );
    lines.push(styled("https://github.com/King-Drake/Liberal-Crime-Squad", TextColor::Default));
    lines.push(styled("", TextColor::Default));
    lines.push(
        styled(
            "Press ESC now to quit. Quitting later causes your progress to be saved.",
            TextColor::Default,
        ),
    );
    lines.push(styled("Press any other key to pursue your Liberal Agenda!", TextColor::Default));
    let v = ScreenView { title: "Opening".to_owned(), lines };
    proof {
        assert(line_views(v.lines@) =~= opening_content());
    }
    v
}

/// The savegame-name screen's view: the prompt and the buffer as typed so
/// far.
pub fn render_savegame_name(savefile_name: &String) -> (v: ScreenView)
    ensures
        v.title@ == screen_title(MenuItem::SavegameName),
        line_views(v.lines@) == savegame_content(savefile_name@),
{
    let mut lines: Vec<StyledLine> = Vec::new();
    lines.push(styled("In what world will you pursue your Liberal Agenda?", TextColor::Default));
    lines.push(styled("Enter a name for the save file.", TextColor::Default));
    lines.push(StyledLine { text: savefile_name.clone(), color: TextColor::Default });
    let v = ScreenView { title: "Savegame Name".to_owned(), lines };
    proof {
        assert(line_views(v.lines@) =~= savegame_content(savefile_name@));
    }
    v
}

/// The view of whichever screen is active. The result is a function of the
/// screen and the buffer alone: its title and content are pinned exactly.
pub fn render(item: MenuItem, savefile_name: &String) -> (v: ScreenView)
    ensures
        v.title@ == screen_title(item),
        line_views(v.lines@) == screen_content(item, savefile_name@),
{
    match item {
        MenuItem::Opening => render_opening(),
        MenuItem::Home => render_home(),
        MenuItem::SavegameName => render_savegame_name(savefile_name),
    }
}

/// Rendering is deterministic: any two views that meet the rendering
/// contract for the same screen and buffer carry the same title and the same
/// content.
pub proof fn lemma_render_deterministic(
    item: MenuItem,
    buf: Seq<char>,
    a: ScreenView,
    b: ScreenView,
)
    requires
        a.title@ == screen_title(item),
        line_views(a.lines@) == screen_content(item, buf),
        b.title@ == screen_title(item),
        line_views(b.lines@) == screen_content(item, buf),
    ensures
        a.title@ == b.title@,
        line_views(a.lines@) == line_views(b.lines@),
{
}

} // verus!
