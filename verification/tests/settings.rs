use resa::file::Serializable;
use resa::ini::{
    ini_to_str, logging_ini_to_string, setup_default_ini, string_to_data, string_to_log_data,
    string_to_window_data, string_to_window_mode, window_ini_to_string, IniError, IniFileData,
    WindowIniData, WindowMode,
};
use resa::text::{append_decimal, decimal_text, parse_u32, same_text, split_text};

const DEFAULT_TEXT: &str =
    "#Window\nMode=Windowed\nWidth=640\nHeight=480\nTitle=RESA by Sebastian Borsch\n#Logging\nPath=Desktop";

fn lines(text: &[&str]) -> Vec<String> {
    text.iter().map(|line| line.to_string()).collect()
}

#[test]
fn default_settings() {
    let data = setup_default_ini();
    assert_eq!(data.logging_path, "Desktop");
    assert_eq!(data.window_data.window_mode, WindowMode::Windowed);
    assert_eq!(data.window_data.window_width, 640);
    assert_eq!(data.window_data.window_height, 480);
    assert_eq!(data.window_data.window_title, "RESA by Sebastian Borsch");
}

#[test]
fn settings_are_written_section_by_section() {
    assert_eq!(ini_to_str(&setup_default_ini()), DEFAULT_TEXT);
    assert_eq!(setup_default_ini().save(), DEFAULT_TEXT);
}

#[test]
fn window_section_is_written_with_its_mode() {
    let window = WindowIniData {
        window_mode: WindowMode::Fullscreen,
        window_width: 1920,
        window_height: 0,
        window_title: String::new(),
    };
    assert_eq!(
        window_ini_to_string(&window),
        "#Window\nMode=Fullscreen\nWidth=1920\nHeight=0\nTitle="
    );
}

#[test]
fn logging_section_is_written_after_a_line_feed() {
    assert_eq!(logging_ini_to_string("/var/log"), "\n#Logging\nPath=/var/log");
    assert_eq!(logging_ini_to_string(""), "\n#Logging\nPath=");
}

#[test]
fn written_settings_are_read_back() {
    assert_eq!(string_to_data(DEFAULT_TEXT), Ok(setup_default_ini()));
    let data = IniFileData {
        window_data: WindowIniData {
            window_mode: WindowMode::Windowed,
            window_width: 4294967295,
            window_height: 1,
            window_title: "A title with spaces".to_string(),
        },
        logging_path: "C:/logs".to_string(),
    };
    assert_eq!(string_to_data(&ini_to_str(&data)), Ok(data));
}

#[test]
fn window_mode_is_read() {
    let mut data = setup_default_ini();
    data.window_data.window_mode = WindowMode::Fullscreen;
    let read = string_to_data(&ini_to_str(&data)).unwrap();
    assert_eq!(read.window_data.window_mode, WindowMode::Fullscreen);
    assert_eq!(read, data);
    let read = string_to_data("#Window\nMode=Fullscreen\nMode=Windowed").unwrap();
    assert_eq!(read.window_data.window_mode, WindowMode::Windowed);
    let read = string_to_data("#Window\nWidth=3\nMode=Fullscreen").unwrap();
    assert_eq!(read.window_data.window_mode, WindowMode::Fullscreen);
    assert_eq!(read.window_data.window_width, 3);
}

#[test]
fn window_section_without_a_mode_is_windowed() {
    let read = string_to_data("#Window\nWidth=3").unwrap();
    assert_eq!(read.window_data.window_mode, WindowMode::Windowed);
    let read = string_to_data("#Window\nMode=Fullscreen\n#Window\nWidth=3").unwrap();
    assert_eq!(read.window_data.window_mode, WindowMode::Windowed);
}

#[test]
fn mode_that_is_no_window_mode_is_refused() {
    assert_eq!(string_to_data("#Window\nMode=Borderless"), Err(IniError::InvalidMode));
    assert_eq!(string_to_data("#Window\nMode=fullscreen"), Err(IniError::InvalidMode));
    assert_eq!(string_to_data("#Window\nMode="), Err(IniError::InvalidMode));
    assert_eq!(string_to_data("#Window\nMode=Windowed "), Err(IniError::InvalidMode));
    assert_eq!(string_to_data("#Window\nMode"), Err(IniError::MissingValue));
    assert_eq!(IniFileData::load("#Window\nMode=Borderless"), None);
}

#[test]
fn window_modes_are_read_by_their_names() {
    assert_eq!(string_to_window_mode("Windowed"), Some(WindowMode::Windowed));
    assert_eq!(string_to_window_mode("Fullscreen"), Some(WindowMode::Fullscreen));
    assert_eq!(string_to_window_mode(""), None);
    assert_eq!(string_to_window_mode("windowed"), None);
}

#[test]
fn empty_text_holds_the_default_settings() {
    assert_eq!(string_to_data(""), Ok(setup_default_ini()));
    assert_eq!(string_to_data("no section at all"), Ok(setup_default_ini()));
    assert_eq!(string_to_data("#Unknown\nWidth=1"), Ok(setup_default_ini()));
    assert_eq!(IniFileData::load(""), Some(setup_default_ini()));
}

#[test]
fn window_section_starts_from_blank_settings() {
    let read = string_to_data("#Window\nWidth=5").unwrap();
    assert_eq!(read.window_data.window_width, 5);
    assert_eq!(read.window_data.window_height, 0);
    assert_eq!(read.window_data.window_title, "");
    assert_eq!(read.logging_path, "Desktop");
}

#[test]
fn later_lines_and_sections_win() {
    let read = string_to_data("#Window\nWidth=5\nWidth=6\n#Logging\nPath=a\nPath=b").unwrap();
    assert_eq!(read.window_data.window_width, 6);
    assert_eq!(read.logging_path, "b");
    let read = string_to_data("#Window\nWidth=5\nHeight=7\n#Window\nHeight=8").unwrap();
    assert_eq!(read.window_data.window_width, 0);
    assert_eq!(read.window_data.window_height, 8);
}

#[test]
fn value_ends_at_the_second_equals_sign() {
    let read = string_to_data("#Window\nTitle=a=b\n#Logging\nPath=x=y=z").unwrap();
    assert_eq!(read.window_data.window_title, "a");
    assert_eq!(read.logging_path, "x");
}

#[test]
fn unknown_keys_and_empty_lines_are_passed_over() {
    let read = string_to_data("#Window\n\nDepth=3\nwidth=9\nmode=x\nWidth=2\nstray").unwrap();
    assert_eq!(read.window_data.window_width, 2);
    assert_eq!(read.window_data.window_height, 0);
}

#[test]
fn setting_without_a_value_is_refused() {
    assert_eq!(string_to_data("#Window\nWidth"), Err(IniError::MissingValue));
    assert_eq!(string_to_data("#Window\nHeight"), Err(IniError::MissingValue));
    assert_eq!(string_to_data("#Window\nTitle"), Err(IniError::MissingValue));
    assert_eq!(string_to_data("#Logging\nPath"), Err(IniError::MissingValue));
    assert_eq!(string_to_data("#Window\nWidth\nWidth=abc"), Err(IniError::MissingValue));
    assert_eq!(IniFileData::load("#Logging\nPath"), None);
}

#[test]
fn size_that_is_no_number_is_refused() {
    assert_eq!(string_to_data("#Window\nWidth=abc"), Err(IniError::InvalidNumber));
    assert_eq!(string_to_data("#Window\nWidth="), Err(IniError::InvalidNumber));
    assert_eq!(string_to_data("#Window\nHeight=-1"), Err(IniError::InvalidNumber));
    assert_eq!(string_to_data("#Window\nHeight= 1"), Err(IniError::InvalidNumber));
    assert_eq!(string_to_data("#Window\nHeight=4294967296"), Err(IniError::InvalidNumber));
    assert_eq!(string_to_data("#Window\nWidth=1\r\nHeight=2"), Err(IniError::InvalidNumber));
    assert_eq!(string_to_data("#Window\nWidth=x\nTitle"), Err(IniError::InvalidNumber));
    assert_eq!(IniFileData::load("#Window\nWidth=abc"), None);
}

#[test]
fn empty_title_and_path_are_values() {
    let read = string_to_data("#Window\nTitle=\n#Logging\nPath=").unwrap();
    assert_eq!(read.window_data.window_title, "");
    assert_eq!(read.logging_path, "");
}

#[test]
fn failed_section_leaves_the_settings_as_they_were() {
    let mut data = setup_default_ini();
    let result = string_to_window_data(&lines(&["Window", "Width=7", "Height"]), &mut data);
    assert_eq!(result, Err(IniError::MissingValue));
    assert_eq!(data, setup_default_ini());
    let result = string_to_log_data(&lines(&["Logging", "Path=a", "Path"]), &mut data);
    assert_eq!(result, Err(IniError::MissingValue));
    assert_eq!(data, setup_default_ini());
}

#[test]
fn sections_are_read_from_their_second_line_on() {
    let mut data = setup_default_ini();
    assert_eq!(string_to_window_data(&lines(&["Width=7", "Height=8"]), &mut data), Ok(()));
    assert_eq!(data.window_data.window_width, 0);
    assert_eq!(data.window_data.window_height, 8);
    assert_eq!(string_to_log_data(&lines(&["Path=a"]), &mut data), Ok(()));
    assert_eq!(data.logging_path, "Desktop");
    assert_eq!(string_to_log_data(&lines(&[]), &mut data), Ok(()));
    assert_eq!(string_to_window_data(&lines(&[]), &mut data), Ok(()));
    assert_eq!(data.window_data.window_height, 0);
}

#[test]
fn text_is_split_at_every_separator() {
    assert_eq!(split_text("a=b=c", '='), lines(&["a", "b", "c"]));
    assert_eq!(split_text("abc", '='), lines(&["abc"]));
    assert_eq!(split_text("", '='), lines(&[""]));
    assert_eq!(split_text("=", '='), lines(&["", ""]));
    assert_eq!(split_text("a==b=", '='), lines(&["a", "", "b", ""]));
    assert_eq!(split_text("#x#", '#'), lines(&["", "x", ""]));
    assert_eq!(split_text("ä=ö", '='), lines(&["ä", "ö"]));
}

#[test]
fn split_agrees_with_the_standard_library() {
    for text in ["", "a", "=", "a=b", "==", "a=b=", "=a=b", "key=value=more=", "üñí=ç"] {
        let expected: Vec<String> = text.split('=').map(|piece| piece.to_string()).collect();
        assert_eq!(split_text(text, '='), expected);
    }
}

#[test]
fn numbers_are_read_from_decimal_digits() {
    assert_eq!(parse_u32("0"), Some(0));
    assert_eq!(parse_u32("640"), Some(640));
    assert_eq!(parse_u32("007"), Some(7));
    assert_eq!(parse_u32("+12"), Some(12));
    assert_eq!(parse_u32("4294967295"), Some(4294967295));
    assert_eq!(parse_u32("00000000004294967295"), Some(4294967295));
}

#[test]
fn other_texts_are_no_numbers() {
    for text in [
        "", "+", "-", "-1", "+-1", "++1", "1+", " 1", "1 ", "1.0", "abc", "12a", "4294967296",
        "99999999999999999999999999", "١٢", "0x10",
    ] {
        assert_eq!(parse_u32(text), None);
    }
}

#[test]
fn reading_numbers_agrees_with_the_standard_library() {
    for text in
        ["", "+", "-", "0", "+0", "-0", "12", "012", "+012", "4294967295", "4294967296", "1e3", "٣"]
    {
        assert_eq!(parse_u32(text), text.parse::<u32>().ok());
    }
}

#[test]
fn numbers_are_written_in_decimal_digits() {
    assert_eq!(decimal_text(0), "0");
    assert_eq!(decimal_text(9), "9");
    assert_eq!(decimal_text(10), "10");
    assert_eq!(decimal_text(1234567890), "1234567890");
    assert_eq!(decimal_text(u64::MAX), "18446744073709551615");
    let mut text = "n=".to_string();
    append_decimal(&mut text, 480);
    assert_eq!(text, "n=480");
}

#[test]
fn texts_are_compared_character_by_character() {
    assert!(same_text("Width", "Width"));
    assert!(same_text("", ""));
    assert!(!same_text("Width", "width"));
    assert!(!same_text("Width", "Widt"));
    assert!(!same_text("", " "));
}
