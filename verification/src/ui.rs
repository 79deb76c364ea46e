//! The text of the menus: the items of each menu, with the highlighted one
//! marked by an arrow.

use vstd::prelude::*;
use vstd::string::StringExecFns;

verus! {

/// How a menu item reads: the highlighted item is preceded by "> ".
pub open spec fn menu_line_spec(option: Seq<char>, selected: bool) -> Seq<char> {
    if selected {
        "> "@ + option
    } else {
        option
    }
}

/// The items of the main menu.
pub open spec fn main_menu_options() -> Seq<Seq<char>> {
    seq!["PLAY"@, "SETTINGS"@, "EXIT"@]
}

/// The items of the pause menu.
pub open spec fn pause_menu_options() -> Seq<Seq<char>> {
    seq!["RESUME"@, "SETTINGS"@, "TO MAIN MENU"@]
}

/// The items of the settings menu: the screen mode, the sound, the font, and back.
pub open spec fn settings_menu_options(
    fullscreen: bool,
    sound_on: bool,
    font_name: Seq<char>,
) -> Seq<Seq<char>> {
    seq![
        "SCREEN MODE: "@ + (if fullscreen {
            "FULL SCREEN"@
        } else {
            "WINDOW"@
        }),
        "VOLUME: "@ + (if sound_on {
            "ON"@
        } else {
            "OFF"@
        }),
        "FONT: "@ + font_name,
        "BACK"@,
    ]
}

/// The lines of a menu whose item `selected_idx` is highlighted.
pub open spec fn menu_lines_spec(options: Seq<Seq<char>>, selected_idx: int) -> Seq<Seq<char>> {
    Seq::new(options.len(), |i: int| menu_line_spec(options[i], i == selected_idx))
}

/// The views of a list of strings.
pub open spec fn texts(lines: Seq<String>) -> Seq<Seq<char>> {
    lines.map_values(|l: String| l@)
}

/// How a menu item reads, highlighted or not.
pub fn menu_line(option: &str, selected: bool) -> (line: String)
    ensures
        line@ == menu_line_spec(option@, selected),
{
    if selected {
        let mut line = String::from_str("> ");
        line.append(option);
        line
    } else {
        String::from_str(option)
    }
}

/// The lines of a menu made of `options`, item `selected_idx` highlighted.
fn menu_lines(options: &Vec<String>, selected_idx: usize) -> (lines: Vec<String>)
    ensures
        texts(lines@) == menu_lines_spec(texts(options@), selected_idx as int),
{
    let mut lines: Vec<String> = Vec::new();
    let mut i: usize = 0;
    while i < options.len()
        invariant
            i <= options@.len(),
            lines@.len() == i,
            forall|j: int|
                0 <= j < i ==> #[trigger] lines@[j]@ == menu_line_spec(
                    options@[j]@,
                    j == selected_idx,
                ),
        decreases options@.len() - i,
    {
        lines.push(menu_line(options[i].as_str(), i == selected_idx));
        i = i + 1;
    }
    assert(texts(lines@) =~= menu_lines_spec(texts(options@), selected_idx as int));
    lines
}

/// The lines of the main menu, item `selected_idx` highlighted.
pub fn main_menu_lines(selected_idx: usize) -> (lines: Vec<String>)
    ensures
        texts(lines@) == menu_lines_spec(main_menu_options(), selected_idx as int),
{
    let options = vec![String::from_str("PLAY"), String::from_str("SETTINGS"), String::from_str("EXIT")];
    assert(texts(options@) =~= main_menu_options());
    menu_lines(&options, selected_idx)
}

/// The lines of the pause menu, item `selected_idx` highlighted.
pub fn pause_menu_lines(selected_idx: usize) -> (lines: Vec<String>)
    ensures
        texts(lines@) == menu_lines_spec(pause_menu_options(), selected_idx as int),
{
    let options = vec![
        String::from_str("RESUME"),
        String::from_str("SETTINGS"),
        String::from_str("TO MAIN MENU"),
    ];
    assert(texts(options@) =~= pause_menu_options());
    menu_lines(&options, selected_idx)
}

/// The lines of the settings menu, item `selected_idx` highlighted, showing
/// the screen mode, the sound and the name of the font.
pub fn settings_menu_lines(
    selected_idx: usize,
    fullscreen: bool,
    sound_on: bool,
    font_name: &str,
) -> (lines: Vec<String>)
    ensures
        texts(lines@) == menu_lines_spec(
            settings_menu_options(fullscreen, sound_on, font_name@),
            selected_idx as int,
        ),
{
    let screen_str = if fullscreen {
        "FULL SCREEN"
    } else {
        "WINDOW"
    };
    let sound_str = if sound_on {
        "ON"
    } else {
        "OFF"
    };
    let screen = String::from_str("SCREEN MODE: ").concat(screen_str);
    let sound = String::from_str("VOLUME: ").concat(sound_str);
    let font = String::from_str("FONT: ").concat(font_name);
    let options = vec![screen, sound, font, String::from_str("BACK")];
    assert(texts(options@) =~= settings_menu_options(fullscreen, sound_on, font_name@));
    menu_lines(&options, selected_idx)
}

/// The highlighted item is its option preceded by an arrow and a space;
/// every other item is its option unchanged. In a menu exactly the item at
/// `selected_idx` is marked, and the menu has as many lines as options.
pub proof fn lemma_menu_marks_one_item(options: Seq<Seq<char>>, selected_idx: int, o: Seq<char>)
    ensures
        menu_line_spec(o, true) == seq!['>', ' '] + o,
        menu_line_spec(o, false) == o,
        menu_lines_spec(options, selected_idx).len() == options.len(),
        forall|i: int|
            0 <= i < options.len() && i != selected_idx ==> #[trigger] menu_lines_spec(
                options,
                selected_idx,
            )[i] == options[i],
        0 <= selected_idx < options.len() ==> menu_lines_spec(options, selected_idx)[selected_idx]
            == seq!['>', ' '] + options[selected_idx],
        main_menu_options().len() == 3,
        pause_menu_options().len() == 3,
        forall|f: bool, v: bool, n: Seq<char>| #[trigger] settings_menu_options(f, v, n).len() == 4,
{
    reveal_strlit("> ");
    assert("> "@ =~= seq!['>', ' ']);
}

} // verus!
