//! The settings of the program and the text they are kept in.
//!
//! The text is made of sections. Each section begins with `#` and its
//! name; the lines that follow hold one setting each, as a key, `=` and a
//! value.

use vstd::prelude::*;
use crate::file::Serializable;
use crate::text::{append_decimal, decimal, parse_u32, parsed_u32, same_text, split, split_text};

verus! {

/// How the window is shown.
#[derive(Clone, Copy, Debug, PartialEq, Eq, Structural)]
pub enum WindowMode {
    Windowed,
    Fullscreen,
}

/// The settings of the window.
#[derive(Debug, PartialEq, Eq)]
pub struct WindowIniData {
    pub window_mode: WindowMode,
    pub window_width: u32,
    pub window_height: u32,
    pub window_title: String,
}

/// All settings.
#[derive(Debug, PartialEq, Eq)]
pub struct IniFileData {
    pub window_data: WindowIniData,
    pub logging_path: String,
}

/// The settings of the window as a mathematical value.
pub ghost struct WindowIniModel {
    pub window_mode: WindowMode,
    pub window_width: u32,
    pub window_height: u32,
    pub window_title: Seq<char>,
}

/// All settings as a mathematical value.
pub ghost struct IniFileModel {
    pub window_data: WindowIniModel,
    pub logging_path: Seq<char>,
}

impl View for WindowIniData {
    type V = WindowIniModel;

    open spec fn view(&self) -> WindowIniModel {
        WindowIniModel {
            window_mode: self.window_mode,
            window_width: self.window_width,
            window_height: self.window_height,
            window_title: self.window_title@,
        }
    }
}

impl View for IniFileData {
    type V = IniFileModel;

    open spec fn view(&self) -> IniFileModel {
        IniFileModel { window_data: self.window_data@, logging_path: self.logging_path@ }
    }
}

/// Why a text holds no settings.
#[derive(Clone, Copy, Debug, PartialEq, Eq, Structural)]
pub enum IniError {
    /// A line names a setting and gives no value after `=`.
    MissingValue,
    /// The value of a width or a height is no number.
    InvalidNumber,
    /// The value of a mode is the name of no window mode.
    InvalidMode,
}

/// The settings used where nothing else is known.
pub open spec fn default_ini() -> IniFileModel {
    IniFileModel {
        window_data: WindowIniModel {
            window_mode: WindowMode::Windowed,
            window_width: 640,
            window_height: 480,
            window_title: "RESA by Sebastian Borsch"@,
        },
        logging_path: "Desktop"@,
    }
}

/// The window settings that a window section starts from.
pub open spec fn blank_window() -> WindowIniModel {
    WindowIniModel {
        window_mode: WindowMode::Windowed,
        window_width: 0,
        window_height: 0,
        window_title: Seq::empty(),
    }
}

/// The key of a line: what stands before its first `=`.
pub open spec fn key_of(line: Seq<char>) -> Seq<char> {
    split(line, '=')[0]
}

/// The value of a line: what stands between its first `=` and its second,
/// or its end. A line without `=` has no value.
pub open spec fn value_of(line: Seq<char>) -> Option<Seq<char>> {
    if split(line, '=').len() > 1 {
        Some(split(line, '=')[1])
    } else {
        None
    }
}

/// The window mode that a text names, if it names one.
pub open spec fn parsed_mode(value: Seq<char>) -> Option<WindowMode> {
    if value == "Windowed"@ {
        Some(WindowMode::Windowed)
    } else if value == "Fullscreen"@ {
        Some(WindowMode::Fullscreen)
    } else {
        None
    }
}

/// The window settings after one more line of a window section. A line
/// with another key than `Width`, `Height`, `Title` or `Mode` changes
/// nothing.
pub open spec fn window_with_line(window: WindowIniModel, line: Seq<char>) -> Result<
    WindowIniModel,
    IniError,
> {
    let key = key_of(line);
    if key == "Width"@ || key == "Height"@ {
        match value_of(line) {
            None => Err(IniError::MissingValue),
            Some(value) => match parsed_u32(value) {
                None => Err(IniError::InvalidNumber),
                Some(number) => if key == "Width"@ {
                    Ok(WindowIniModel { window_width: number, ..window })
                } else {
                    Ok(WindowIniModel { window_height: number, ..window })
                },
            },
        }
    } else if key == "Title"@ {
        match value_of(line) {
            None => Err(IniError::MissingValue),
            Some(value) => Ok(WindowIniModel { window_title: value, ..window }),
        }
    } else if key == "Mode"@ {
        match value_of(line) {
            None => Err(IniError::MissingValue),
            Some(value) => match parsed_mode(value) {
                None => Err(IniError::InvalidMode),
                Some(mode) => Ok(WindowIniModel { window_mode: mode, ..window }),
            },
        }
    } else {
        Ok(window)
    }
}

/// The window settings after the first `n` lines of a window section, the
/// first of which is the name of the section.
pub open spec fn window_after(lines: Seq<Seq<char>>, n: int) -> Result<WindowIniModel, IniError>
    decreases n,
{
    if n <= 1 {
        Ok(blank_window())
    } else {
        match window_after(lines, n - 1) {
            Ok(window) => window_with_line(window, lines[n - 1]),
            Err(e) => Err(e),
        }
    }
}

/// The logging path after one more line of a logging section. A line with
/// another key than `Path` changes nothing.
pub open spec fn path_with_line(path: Seq<char>, line: Seq<char>) -> Result<Seq<char>, IniError> {
    if key_of(line) == "Path"@ {
        match value_of(line) {
            None => Err(IniError::MissingValue),
            Some(value) => Ok(value),
        }
    } else {
        Ok(path)
    }
}

/// The logging path after the first `n` lines of a logging section, the
/// first of which is the name of the section.
pub open spec fn path_after(path: Seq<char>, lines: Seq<Seq<char>>, n: int) -> Result<
    Seq<char>,
    IniError,
>
    decreases n,
{
    if n <= 1 {
        Ok(path)
    } else {
        match path_after(path, lines, n - 1) {
            Ok(earlier) => path_with_line(earlier, lines[n - 1]),
            Err(e) => Err(e),
        }
    }
}

/// The settings after one more section. A section of another name than
/// `Window` or `Logging` changes nothing.
pub open spec fn data_with_section(data: IniFileModel, section: Seq<char>) -> Result<
    IniFileModel,
    IniError,
> {
    let lines = split(section, '\n');
    if lines[0] == "Window"@ {
        match window_after(lines, lines.len() as int) {
            Ok(window) => Ok(IniFileModel { window_data: window, ..data }),
            Err(e) => Err(e),
        }
    } else if lines[0] == "Logging"@ {
        match path_after(data.logging_path, lines, lines.len() as int) {
            Ok(path) => Ok(IniFileModel { logging_path: path, ..data }),
            Err(e) => Err(e),
        }
    } else {
        Ok(data)
    }
}

/// The settings after the first `n` of the given sections, starting from
/// the default settings.
pub open spec fn data_after(sections: Seq<Seq<char>>, n: int) -> Result<IniFileModel, IniError>
    decreases n,
{
    if n <= 0 {
        Ok(default_ini())
    } else {
        match data_after(sections, n - 1) {
            Ok(data) => data_with_section(data, sections[n - 1]),
            Err(e) => Err(e),
        }
    }
}

/// The settings that a text holds: the default settings, changed by each
/// section of the text in turn.
pub open spec fn parsed_ini(content: Seq<char>) -> Result<IniFileModel, IniError> {
    data_after(split(content, '#'), split(content, '#').len() as int)
}

/// Computes `default_ini`.
pub fn setup_default_ini() -> (data: IniFileData)
    ensures
        data@ == default_ini(),
{
    IniFileData {
        logging_path: "Desktop".to_owned(),
        window_data: WindowIniData {
            window_mode: WindowMode::Windowed,
            window_height: 480,
            window_width: 640,
            window_title: "RESA by Sebastian Borsch".to_owned(),
        },
    }
}

/// The value of a line that was split at `=`.
fn value_text(parts: &Vec<String>) -> (value: Option<&str>)
    ensures
        match value {
            Some(text) => parts.len() > 1 && text@ == parts.deep_view()[1],
            None => parts.len() <= 1,
        },
{
    if parts.len() > 1 {
        let text = parts[1].as_str();
        assert(parts.deep_view()[1] == parts@[1]@);
        Some(text)
    } else {
        None
    }
}

/// Computes `parsed_mode`.
pub fn string_to_window_mode(value: &str) -> (mode: Option<WindowMode>)
    ensures
        mode == parsed_mode(value@),
{
    if same_text(value, "Windowed") {
        Some(WindowMode::Windowed)
    } else if same_text(value, "Fullscreen") {
        Some(WindowMode::Fullscreen)
    } else {
        None
    }
}

/// Reads the window settings from the lines of a window section and puts
/// them in the place of those in `ini_data`. Where a line cannot be read,
/// `ini_data` is left as it was.
pub fn string_to_window_data(lines: &Vec<String>, ini_data: &mut IniFileData) -> (result: Result<
    (),
    IniError,
>)
    ensures
        match window_after(lines.deep_view(), lines.len() as int) {
            Ok(window) => result == Ok::<(), IniError>(()) && final(ini_data)@ == (IniFileModel {
                window_data: window,
                ..old(ini_data)@
            }),
            Err(e) => result == Err::<(), IniError>(e) && final(ini_data)@ == old(ini_data)@,
        },
{
    let mut window_data = WindowIniData {
        window_mode: WindowMode::Windowed,
        window_height: 0,
        window_width: 0,
        window_title: String::new(),
    };
    assert(window_data@ == blank_window());
    let mut i: usize = 1;
    while i < lines.len()
        invariant
            1 <= i,
            i <= lines.len() || (lines.len() == 0 && i == 1),
            *ini_data == *old(ini_data),
            window_after(lines.deep_view(), i as int) == Ok::<WindowIniModel, IniError>(
                window_data@,
            ),
        decreases lines.len() - i,
    {
        assert(lines.deep_view()[i as int] == lines@[i as int]@);
        let parts = split_text(lines[i].as_str(), '=');
        proof {
            crate::text::lemma_split_is_not_empty(lines@[i as int]@, '=');
            assert(parts.deep_view()[0] == parts@[0]@);
        }
        let key = parts[0].as_str();
        let is_width = same_text(key, "Width");
        let is_height = same_text(key, "Height");
        if is_width || is_height {
            let number = match value_text(&parts) {
                Some(text) => parse_u32(text),
                None => {
                    assert(window_after(lines.deep_view(), i + 1) is Err);
                    proof {
                        lemma_window_error_stays(lines.deep_view(), i + 1, lines.len() as int);
                    }
                    return Err(IniError::MissingValue);
                },
            };
            match number {
                Some(number) => {
                    if is_width {
                        window_data.window_width = number;
                    } else {
                        window_data.window_height = number;
                    }
                },
                None => {
                    assert(window_after(lines.deep_view(), i + 1) is Err);
                    proof {
                        lemma_window_error_stays(lines.deep_view(), i + 1, lines.len() as int);
                    }
                    return Err(IniError::InvalidNumber);
                },
            }
        } else if same_text(key, "Title") {
            match value_text(&parts) {
                Some(text) => {
                    window_data.window_title = text.to_owned();
                },
                None => {
                    assert(window_after(lines.deep_view(), i + 1) is Err);
                    proof {
                        lemma_window_error_stays(lines.deep_view(), i + 1, lines.len() as int);
                    }
                    return Err(IniError::MissingValue);
                },
            }
        } else if same_text(key, "Mode") {
            let mode = match value_text(&parts) {
                Some(text) => string_to_window_mode(text),
                None => {
                    assert(window_after(lines.deep_view(), i + 1) is Err);
                    proof {
                        lemma_window_error_stays(lines.deep_view(), i + 1, lines.len() as int);
                    }
                    return Err(IniError::MissingValue);
                },
            };
            match mode {
                Some(mode) => {
                    window_data.window_mode = mode;
                },
                None => {
                    assert(window_after(lines.deep_view(), i + 1) is Err);
                    proof {
                        lemma_window_error_stays(lines.deep_view(), i + 1, lines.len() as int);
                    }
                    return Err(IniError::InvalidMode);
                },
            }
        }
        i += 1;
    }
    ini_data.window_data = window_data;
    Ok(())
}

/// Once a line of a window section cannot be read, no later line mends it.
proof fn lemma_window_error_stays(lines: Seq<Seq<char>>, n: int, m: int)
    requires
        window_after(lines, n) is Err,
        n <= m,
    ensures
        window_after(lines, m) == window_after(lines, n),
    decreases m - n,
{
    if n < m {
        lemma_window_error_stays(lines, n, m - 1);
    }
}

/// Once a line of a logging section cannot be read, no later line mends it.
proof fn lemma_path_error_stays(path: Seq<char>, lines: Seq<Seq<char>>, n: int, m: int)
    requires
        path_after(path, lines, n) is Err,
        n <= m,
    ensures
        path_after(path, lines, m) == path_after(path, lines, n),
    decreases m - n,
{
    if n < m {
        lemma_path_error_stays(path, lines, n, m - 1);
    }
}

/// Reads the logging path from the lines of a logging section and puts it
/// in the place of the one in `ini_data`. Where a line cannot be read,
/// `ini_data` is left as it was.
pub fn string_to_log_data(lines: &Vec<String>, ini_data: &mut IniFileData) -> (result: Result<
    (),
    IniError,
>)
    ensures
        match path_after(old(ini_data)@.logging_path, lines.deep_view(), lines.len() as int) {
            Ok(path) => result == Ok::<(), IniError>(()) && final(ini_data)@ == (IniFileModel {
                logging_path: path,
                ..old(ini_data)@
            }),
            Err(e) => result == Err::<(), IniError>(e) && final(ini_data)@ == old(ini_data)@,
        },
{
    let mut path: Option<String> = None;
    let ghost start = ini_data@.logging_path;
    let mut i: usize = 1;
    while i < lines.len()
        invariant
            1 <= i,
            i <= lines.len() || (lines.len() == 0 && i == 1),
            *ini_data == *old(ini_data),
            start == old(ini_data)@.logging_path,
            path_after(start, lines.deep_view(), i as int) == Ok::<Seq<char>, IniError>(
                match path {
                    Some(text) => text@,
                    None => start,
                },
            ),
        decreases lines.len() - i,
    {
        assert(lines.deep_view()[i as int] == lines@[i as int]@);
        let parts = split_text(lines[i].as_str(), '=');
        proof {
            crate::text::lemma_split_is_not_empty(lines@[i as int]@, '=');
            assert(parts.deep_view()[0] == parts@[0]@);
        }
        if same_text(parts[0].as_str(), "Path") {
            match value_text(&parts) {
                Some(text) => {
                    path = Some(text.to_owned());
                },
                None => {
                    assert(path_after(start, lines.deep_view(), i + 1) is Err);
                    proof {
                        lemma_path_error_stays(
                            start,
                            lines.deep_view(),
                            i + 1,
                            lines.len() as int,
                        );
                    }
                    return Err(IniError::MissingValue);
                },
            }
        }
        i += 1;
    }
    match path {
        Some(text) => {
            ini_data.logging_path = text;
        },
        None => {},
    }
    Ok(())
}

/// Reads the settings that a text holds.
pub fn string_to_data(content: &str) -> (result: Result<IniFileData, IniError>)
    ensures
        match parsed_ini(content@) {
            Ok(data) => result is Ok && result->Ok_0@ == data,
            Err(e) => result is Err && result->Err_0 == e,
        },
{
    let mut ini_data = setup_default_ini();
    let sections = split_text(content, '#');
    let mut i: usize = 0;
    while i < sections.len()
        invariant
            i <= sections.len(),
            sections.deep_view() == split(content@, '#'),
            data_after(sections.deep_view(), i as int) == Ok::<IniFileModel, IniError>(ini_data@),
        decreases sections.len() - i,
    {
        assert(sections.deep_view()[i as int] == sections@[i as int]@);
        let lines = split_text(sections[i].as_str(), '\n');
        proof {
            crate::text::lemma_split_is_not_empty(sections@[i as int]@, '\n');
            assert(lines.deep_view()[0] == lines@[0]@);
        }
        let name = lines[0].as_str();
        let outcome = if same_text(name, "Window") {
            string_to_window_data(&lines, &mut ini_data)
        } else if same_text(name, "Logging") {
            string_to_log_data(&lines, &mut ini_data)
        } else {
            Ok(())
        };
        match outcome {
            Ok(()) => {},
            Err(e) => {
                assert(data_after(sections.deep_view(), i + 1) is Err);
                proof {
                    lemma_data_error_stays(sections.deep_view(), i + 1, sections.len() as int);
                }
                return Err(e);
            },
        }
        i += 1;
    }
    Ok(ini_data)
}

/// Once a section cannot be read, no later section mends it.
proof fn lemma_data_error_stays(sections: Seq<Seq<char>>, n: int, m: int)
    requires
        data_after(sections, n) is Err,
        n <= m,
    ensures
        data_after(sections, m) == data_after(sections, n),
    decreases m - n,
{
    if n < m {
        lemma_data_error_stays(sections, n, m - 1);
    }
}

/// The name of a window mode.
pub open spec fn mode_text(mode: WindowMode) -> Seq<char> {
    match mode {
        WindowMode::Windowed => "Windowed"@,
        WindowMode::Fullscreen => "Fullscreen"@,
    }
}

/// The window section of the given settings.
pub open spec fn window_text(window: WindowIniModel) -> Seq<char> {
    "#Window\n"@ + "Mode="@ + mode_text(window.window_mode) + "\nWidth="@ + decimal(
        window.window_width as nat,
    ) + "\nHeight="@ + decimal(window.window_height as nat) + "\nTitle="@ + window.window_title
}

/// The logging section for the given path.
pub open spec fn logging_text(path: Seq<char>) -> Seq<char> {
    "\n#Logging"@ + "\nPath="@ + path
}

/// The text of the given settings: the window section, then the logging
/// section.
pub open spec fn ini_text(data: IniFileModel) -> Seq<char> {
    window_text(data.window_data) + logging_text(data.logging_path)
}

/// Computes `window_text`.
pub fn window_ini_to_string(window_data: &WindowIniData) -> (output: String)
    ensures
        output@ == window_text(window_data@),
{
    let mode_str = match window_data.window_mode {
        WindowMode::Windowed => "Windowed",
        WindowMode::Fullscreen => "Fullscreen",
    };
    let mut output = String::new();
    output.append("#Window\n");
    output.append("Mode=");
    output.append(mode_str);
    output.append("\nWidth=");
    append_decimal(&mut output, window_data.window_width as u64);
    output.append("\nHeight=");
    append_decimal(&mut output, window_data.window_height as u64);
    output.append("\nTitle=");
    output.append(window_data.window_title.as_str());
    assert(output@ =~= window_text(window_data@));
    output
}

/// Computes `logging_text`.
pub fn logging_ini_to_string(log_path: &str) -> (output: String)
    ensures
        output@ == logging_text(log_path@),
{
    let mut output = String::new();
    output.append("\n#Logging");
    output.append("\nPath=");
    output.append(log_path);
    assert(output@ =~= logging_text(log_path@));
    output
}

/// Computes `ini_text`.
pub fn ini_to_str(ini: &IniFileData) -> (output: String)
    ensures
        output@ == ini_text(ini@),
{
    let mut output = String::new();
    output.append(window_ini_to_string(&ini.window_data).as_str());
    output.append(logging_ini_to_string(ini.logging_path.as_str()).as_str());
    assert(output@ =~= ini_text(ini@));
    output
}

impl Serializable for IniFileData {
    /// The text of the settings.
    fn save(&self) -> (text: String)
        ensures
            text@ == ini_text(self@),
    {
        ini_to_str(self)
    }

    /// The settings that a text holds; none where a line of it cannot be
    /// read.
    fn load(file_string: &str) -> (loaded: Option<IniFileData>)
        ensures
            match parsed_ini(file_string@) {
                Ok(data) => loaded is Some && loaded->Some_0@ == data,
                Err(_) => loaded is None,
            },
    {
        match string_to_data(file_string) {
            Ok(data) => Some(data),
            Err(_) => None,
        }
    }
}

} // verus!
