//! What is written of the settings is read back.

use vstd::prelude::*;
use crate::ini::{
    blank_window,
    data_after,
    data_with_section,
    default_ini,
    ini_text,
    key_of,
    logging_text,
    mode_text,
    parsed_mode,
    parsed_ini,
    path_after,
    path_with_line,
    value_of,
    window_after,
    window_text,
    window_with_line,
    IniError,
    IniFileModel,
    WindowIniModel,
};
use crate::text::{
    decimal,
    free_of,
    is_digit,
    lemma_decimal_stands_for_its_number,
    lemma_free_of_both,
    lemma_split_at_first_separator,
    lemma_split_without_separator,
    lemma_written_number_is_read_back,
    split,
};

verus! {

/// Whether a text can stand as a value in the text of the settings: it
/// holds no `#`, no line feed and no `=`.
pub open spec fn plain(text: Seq<char>) -> bool {
    free_of(text, '#') && free_of(text, '\n') && free_of(text, '=')
}

/// A line made of a key, `=` and a value.
pub open spec fn setting(key: Seq<char>, value: Seq<char>) -> Seq<char> {
    key + seq!['='] + value
}

/// The lines of the window section of the given settings.
pub open spec fn window_lines(window: WindowIniModel) -> Seq<Seq<char>> {
    seq![
        "Window"@,
        setting("Mode"@, mode_text(window.window_mode)),
        setting("Width"@, decimal(window.window_width as nat)),
        setting("Height"@, decimal(window.window_height as nat)),
        setting("Title"@, window.window_title),
        Seq::empty(),
    ]
}

/// The lines of the logging section for the given path.
pub open spec fn logging_lines(path: Seq<char>) -> Seq<Seq<char>> {
    seq!["Logging"@, setting("Path"@, path)]
}

proof fn lemma_words()
    ensures
        "#Window\n"@ == seq!['#'] + "Window"@ + seq!['\n'],
        "Mode="@ == "Mode"@ + seq!['='],
        "\nWidth="@ == seq!['\n'] + "Width"@ + seq!['='],
        "\nHeight="@ == seq!['\n'] + "Height"@ + seq!['='],
        "\nTitle="@ == seq!['\n'] + "Title"@ + seq!['='],
        "\n#Logging"@ == seq!['\n', '#'] + "Logging"@,
        "\nPath="@ == seq!['\n'] + "Path"@ + seq!['='],
        plain("Window"@),
        plain("Logging"@),
        plain("Mode"@),
        plain("Width"@),
        plain("Height"@),
        plain("Title"@),
        plain("Path"@),
        plain("Windowed"@),
        plain("Fullscreen"@),
        "Window"@.len() == 6,
        "Logging"@.len() == 7,
        "Mode"@.len() == 4,
        "Width"@.len() == 5,
        "Height"@.len() == 6,
        "Title"@.len() == 5,
        "Path"@.len() == 4,
        "Width"@[0] == 'W',
        "Title"@[0] == 'T',
        "Windowed"@.len() == 8,
        "Fullscreen"@.len() == 10,
{
    reveal_strlit("#Window\n");
    reveal_strlit("Mode=");
    reveal_strlit("\nWidth=");
    reveal_strlit("\nHeight=");
    reveal_strlit("\nTitle=");
    reveal_strlit("\n#Logging");
    reveal_strlit("\nPath=");
    reveal_strlit("Window");
    reveal_strlit("Logging");
    reveal_strlit("Mode");
    reveal_strlit("Width");
    reveal_strlit("Height");
    reveal_strlit("Title");
    reveal_strlit("Path");
    reveal_strlit("Windowed");
    reveal_strlit("Fullscreen");
    assert("#Window\n"@ =~= seq!['#'] + "Window"@ + seq!['\n']);
    assert("Mode="@ =~= "Mode"@ + seq!['=']);
    assert("\nWidth="@ =~= seq!['\n'] + "Width"@ + seq!['=']);
    assert("\nHeight="@ =~= seq!['\n'] + "Height"@ + seq!['=']);
    assert("\nTitle="@ =~= seq!['\n'] + "Title"@ + seq!['=']);
    assert("\n#Logging"@ =~= seq!['\n', '#'] + "Logging"@);
    assert("\nPath="@ =~= seq!['\n'] + "Path"@ + seq!['=']);
}

/// Decimal digits can stand as a value.
pub proof fn lemma_number_is_plain(n: nat)
    ensures
        plain(decimal(n)),
{
    lemma_decimal_stands_for_its_number(n);
    assert forall|i: int| 0 <= i < decimal(n).len() implies decimal(n)[i] != '#' && decimal(n)[i]
        != '\n' && decimal(n)[i] != '=' by {
        assert(is_digit(decimal(n)[i]));
    }
}

/// A line made of a key and a value is read as that key and that value.
pub proof fn lemma_setting_is_read(key: Seq<char>, value: Seq<char>)
    requires
        free_of(key, '='),
        free_of(value, '='),
    ensures
        key_of(setting(key, value)) == key,
        value_of(setting(key, value)) == Some(value),
{
    lemma_split_at_first_separator(key, '=', value);
    lemma_split_without_separator(value, '=');
}

/// A line made of a key and a plain value holds neither `#` nor a line
/// feed.
proof fn lemma_setting_is_one_line(key: Seq<char>, value: Seq<char>)
    requires
        plain(key),
        plain(value),
    ensures
        free_of(setting(key, value), '#'),
        free_of(setting(key, value), '\n'),
{
    lemma_free_of_both(key, seq!['='], '#');
    lemma_free_of_both(key + seq!['='], value, '#');
    lemma_free_of_both(key, seq!['='], '\n');
    lemma_free_of_both(key + seq!['='], value, '\n');
}

/// The lines of a section, each ended by a line feed but the last.
pub open spec fn section_text(lines: Seq<Seq<char>>, n: int) -> Seq<char>
    decreases lines.len() - n,
{
    if n + 1 >= lines.len() {
        lines[n]
    } else {
        lines[n] + seq!['\n'] + section_text(lines, n + 1)
    }
}

/// The lines of a section are got back from its text, and the text holds no
/// `#` where no line does.
proof fn lemma_section_is_split(lines: Seq<Seq<char>>, n: int)
    requires
        0 <= n < lines.len(),
        forall|i: int|
            0 <= i < lines.len() ==> free_of(#[trigger] lines[i], '\n') && free_of(lines[i], '#'),
    ensures
        split(section_text(lines, n), '\n') == lines.subrange(n, lines.len() as int),
        free_of(section_text(lines, n), '#'),
    decreases lines.len() - n,
{
    if n + 1 >= lines.len() {
        lemma_split_without_separator(lines[n], '\n');
        assert(seq![lines[n]] =~= lines.subrange(n, lines.len() as int));
    } else {
        lemma_section_is_split(lines, n + 1);
        lemma_split_at_first_separator(lines[n], '\n', section_text(lines, n + 1));
        assert(seq![lines[n]] + lines.subrange(n + 1, lines.len() as int) =~= lines.subrange(
            n,
            lines.len() as int,
        ));
        lemma_free_of_both(lines[n], seq!['\n'], '#');
        lemma_free_of_both(lines[n] + seq!['\n'], section_text(lines, n + 1), '#');
    }
}

/// The window section of plain settings is read as those settings.
pub proof fn lemma_window_section_is_read(window: WindowIniModel)
    requires
        plain(window.window_title),
    ensures
        window_after(window_lines(window), 6) == Ok::<WindowIniModel, IniError>(window),
{
    lemma_words();
    let lines = window_lines(window);
    let width = decimal(window.window_width as nat);
    let height = decimal(window.window_height as nat);
    lemma_number_is_plain(window.window_width as nat);
    lemma_number_is_plain(window.window_height as nat);
    lemma_written_number_is_read_back(window.window_width);
    lemma_written_number_is_read_back(window.window_height);
    lemma_setting_is_read("Mode"@, mode_text(window.window_mode));
    lemma_setting_is_read("Width"@, width);
    lemma_setting_is_read("Height"@, height);
    lemma_setting_is_read("Title"@, window.window_title);
    lemma_split_without_separator(Seq::<char>::empty(), '=');

    let after1 = blank_window();
    assert(window_after(lines, 1) == Ok::<WindowIniModel, IniError>(after1));
    let after2 = WindowIniModel { window_mode: window.window_mode, ..after1 };
    assert(parsed_mode(mode_text(window.window_mode)) == Some(window.window_mode));
    assert(window_with_line(after1, lines[1]) == Ok::<WindowIniModel, IniError>(after2));
    assert(window_after(lines, 2) == Ok::<WindowIniModel, IniError>(after2));
    let after3 = WindowIniModel { window_width: window.window_width, ..after2 };
    assert(window_with_line(after2, lines[2]) == Ok::<WindowIniModel, IniError>(after3));
    assert(window_after(lines, 3) == Ok::<WindowIniModel, IniError>(after3));
    let after4 = WindowIniModel { window_height: window.window_height, ..after3 };
    assert(window_with_line(after3, lines[3]) == Ok::<WindowIniModel, IniError>(after4));
    assert(window_after(lines, 4) == Ok::<WindowIniModel, IniError>(after4));
    let after5 = WindowIniModel { window_title: window.window_title, ..after4 };
    assert(window_with_line(after4, lines[4]) == Ok::<WindowIniModel, IniError>(after5));
    assert(window_after(lines, 5) == Ok::<WindowIniModel, IniError>(after5));
    assert(key_of(lines[5]) == Seq::<char>::empty());
    assert(window_with_line(after5, lines[5]) == Ok::<WindowIniModel, IniError>(after5));
    assert(window_after(lines, 6) == Ok::<WindowIniModel, IniError>(after5));
}

/// The logging section of a plain path is read as that path.
pub proof fn lemma_logging_section_is_read(before: Seq<char>, path: Seq<char>)
    requires
        plain(path),
    ensures
        path_after(before, logging_lines(path), 2) == Ok::<Seq<char>, IniError>(path),
{
    lemma_words();
    let lines = logging_lines(path);
    lemma_setting_is_read("Path"@, path);
    assert(path_after(before, lines, 1) == Ok::<Seq<char>, IniError>(before));
    assert(path_with_line(before, lines[1]) == Ok::<Seq<char>, IniError>(path));
}

/// The text of the window section is a `#` and its lines but the last,
/// which is empty.
proof fn lemma_window_text_is_its_lines(window: WindowIniModel)
    ensures
        window_text(window) + seq!['\n'] == seq!['#'] + section_text(window_lines(window), 0),
{
    lemma_words();
    let lines = window_lines(window);
    let feed = seq!['\n'];
    assert(section_text(lines, 5) == lines[5]);
    assert(section_text(lines, 4) == lines[4] + feed + section_text(lines, 5));
    assert(section_text(lines, 3) == lines[3] + feed + section_text(lines, 4));
    assert(section_text(lines, 2) == lines[2] + feed + section_text(lines, 3));
    assert(section_text(lines, 1) == lines[1] + feed + section_text(lines, 2));
    assert(section_text(lines, 0) == lines[0] + feed + section_text(lines, 1));
    assert(section_text(lines, 3) =~= lines[3] + feed + lines[4] + feed);
    assert(section_text(lines, 1) =~= lines[1] + feed + lines[2] + feed + section_text(lines, 3));
    let front = "#Window\n"@ + "Mode="@ + mode_text(window.window_mode);
    assert(front =~= seq!['#'] + lines[0] + feed + lines[1]);
    let middle = front + "\nWidth="@ + decimal(window.window_width as nat);
    assert(middle =~= seq!['#'] + lines[0] + feed + lines[1] + feed + lines[2]);
    let back = middle + "\nHeight="@ + decimal(window.window_height as nat);
    assert(back =~= seq!['#'] + lines[0] + feed + lines[1] + feed + lines[2] + feed + lines[3]);
    assert(window_text(window) == back + "\nTitle="@ + window.window_title);
    assert(window_text(window) =~= back + feed + lines[4]);
    assert(window_text(window) + feed =~= seq!['#'] + section_text(lines, 0));
}

/// The text of the logging section is a line feed, a `#` and its lines.
proof fn lemma_logging_text_is_its_lines(path: Seq<char>)
    ensures
        logging_text(path) == seq!['\n'] + seq!['#'] + section_text(logging_lines(path), 0),
{
    lemma_words();
    let lines = logging_lines(path);
    assert(section_text(lines, 1) == lines[1]);
    assert(section_text(lines, 0) == lines[0] + seq!['\n'] + section_text(lines, 1));
    assert(logging_text(path) =~= seq!['\n'] + seq!['#'] + section_text(lines, 0));
}

/// Settings that were written are read back as they were, where their
/// title and their logging path are plain.
pub proof fn lemma_written_settings_are_read_back(data: IniFileModel)
    requires
        plain(data.window_data.window_title),
        plain(data.logging_path),
    ensures
        parsed_ini(ini_text(data)) == Ok::<IniFileModel, IniError>(data),
{
    lemma_words();
    let window = data.window_data;
    let lines1 = window_lines(window);
    let lines2 = logging_lines(data.logging_path);
    lemma_number_is_plain(window.window_width as nat);
    lemma_number_is_plain(window.window_height as nat);
    lemma_setting_is_one_line("Mode"@, mode_text(window.window_mode));
    lemma_setting_is_one_line("Width"@, decimal(window.window_width as nat));
    lemma_setting_is_one_line("Height"@, decimal(window.window_height as nat));
    lemma_setting_is_one_line("Title"@, window.window_title);
    lemma_setting_is_one_line("Path"@, data.logging_path);
    lemma_section_is_split(lines1, 0);
    lemma_section_is_split(lines2, 0);
    let section1 = section_text(lines1, 0);
    let section2 = section_text(lines2, 0);
    assert(lines1.subrange(0, 6) =~= lines1);
    assert(lines2.subrange(0, 2) =~= lines2);

    // The text is the two sections, each behind a `#`.
    lemma_window_text_is_its_lines(window);
    lemma_logging_text_is_its_lines(data.logging_path);
    let text = ini_text(data);
    assert(text =~= (window_text(window) + seq!['\n']) + (seq!['#'] + section2));
    assert(text =~= Seq::<char>::empty() + seq!['#'] + (section1 + seq!['#'] + section2));
    lemma_split_at_first_separator(Seq::<char>::empty(), '#', section1 + seq!['#'] + section2);
    lemma_split_at_first_separator(section1, '#', section2);
    lemma_split_without_separator(section2, '#');
    let sections = split(text, '#');
    assert(sections =~= seq![Seq::<char>::empty(), section1, section2]);

    // What stands before the first `#` is no section.
    lemma_split_without_separator(Seq::<char>::empty(), '\n');
    assert(data_after(sections, 0) == Ok::<IniFileModel, IniError>(default_ini()));
    assert(data_with_section(default_ini(), sections[0]) == Ok::<IniFileModel, IniError>(
        default_ini(),
    ));
    assert(data_after(sections, 1) == Ok::<IniFileModel, IniError>(default_ini()));

    lemma_window_section_is_read(window);
    let after2 = IniFileModel { window_data: window, ..default_ini() };
    assert(data_with_section(default_ini(), sections[1]) == Ok::<IniFileModel, IniError>(after2));
    assert(data_after(sections, 2) == Ok::<IniFileModel, IniError>(after2));

    lemma_logging_section_is_read(after2.logging_path, data.logging_path);
    assert(data_with_section(after2, sections[2]) == Ok::<IniFileModel, IniError>(data));
    assert(data_after(sections, 3) == Ok::<IniFileModel, IniError>(data));
}

} // verus!
