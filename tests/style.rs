use term_mods::{Attr, Bg, Fg, Style};

#[test]
fn black() {
    assert_eq!(Style::this("X").black().get_ansi(), "\x1b[30mX\x1b[0m".to_string());
}

#[test]
fn red() {
    assert_eq!(Style::this("X").red().get_ansi(), "\x1b[31mX\x1b[0m".to_string());
}

#[test]
fn green() {
    assert_eq!(Style::this("X").green().get_ansi(), "\x1b[32mX\x1b[0m".to_string());
}

#[test]
fn yellow() {
    assert_eq!(Style::this("X").yellow().get_ansi(), "\x1b[33mX\x1b[0m".to_string());
}

#[test]
fn blue() {
    assert_eq!(Style::this("X").blue().get_ansi(), "\x1b[34mX\x1b[0m".to_string());
}

#[test]
fn magenta() {
    assert_eq!(Style::this("X").magenta().get_ansi(), "\x1b[35mX\x1b[0m".to_string());
}

#[test]
fn cyan() {
    assert_eq!(Style::this("X").cyan().get_ansi(), "\x1b[36mX\x1b[0m".to_string());
}

#[test]
fn white() {
    assert_eq!(Style::this("X").white().get_ansi(), "\x1b[37mX\x1b[0m".to_string());
}

#[test]
fn br_black() {
    assert_eq!(Style::this("X").br_black().get_ansi(), "\x1b[90mX\x1b[0m".to_string());
}

#[test]
fn br_red() {
    assert_eq!(Style::this("X").br_red().get_ansi(), "\x1b[91mX\x1b[0m".to_string());
}

#[test]
fn br_green() {
    assert_eq!(Style::this("X").br_green().get_ansi(), "\x1b[92mX\x1b[0m".to_string());
}

#[test]
fn br_yellow() {
    assert_eq!(Style::this("X").br_yellow().get_ansi(), "\x1b[93mX\x1b[0m".to_string());
}

#[test]
fn br_blue() {
    assert_eq!(Style::this("X").br_blue().get_ansi(), "\x1b[94mX\x1b[0m".to_string());
}

#[test]
fn br_magenta() {
    assert_eq!(Style::this("X").br_magenta().get_ansi(), "\x1b[95mX\x1b[0m".to_string());
}

#[test]
fn br_cyan() {
    assert_eq!(Style::this("X").br_cyan().get_ansi(), "\x1b[96mX\x1b[0m".to_string());
}

#[test]
fn br_white() {
    assert_eq!(Style::this("X").br_white().get_ansi(), "\x1b[97mX\x1b[0m".to_string());
}

#[test]
fn bg_black() {
    assert_eq!(Style::this("X").bg_black().get_ansi(), "\x1b[40mX\x1b[0m".to_string());
}

#[test]
fn bg_red() {
    assert_eq!(Style::this("X").bg_red().get_ansi(), "\x1b[41mX\x1b[0m".to_string());
}

#[test]
fn bg_green() {
    assert_eq!(Style::this("X").bg_green().get_ansi(), "\x1b[42mX\x1b[0m".to_string());
}

#[test]
fn bg_yellow() {
    assert_eq!(Style::this("X").bg_yellow().get_ansi(), "\x1b[43mX\x1b[0m".to_string());
}

#[test]
fn bg_blue() {
    assert_eq!(Style::this("X").bg_blue().get_ansi(), "\x1b[44mX\x1b[0m".to_string());
}

#[test]
fn bg_magenta() {
    assert_eq!(Style::this("X").bg_magenta().get_ansi(), "\x1b[45mX\x1b[0m".to_string());
}

#[test]
fn bg_cyan() {
    assert_eq!(Style::this("X").bg_cyan().get_ansi(), "\x1b[46mX\x1b[0m".to_string());
}

#[test]
fn bg_white() {
    assert_eq!(Style::this("X").bg_white().get_ansi(), "\x1b[47mX\x1b[0m".to_string());
}

#[test]
fn bg_br_black() {
    assert_eq!(Style::this("X").bg_br_black().get_ansi(), "\x1b[100mX\x1b[0m".to_string());
}

#[test]
fn bg_br_red() {
    assert_eq!(Style::this("X").bg_br_red().get_ansi(), "\x1b[101mX\x1b[0m".to_string());
}

#[test]
fn bg_br_green() {
    assert_eq!(Style::this("X").bg_br_green().get_ansi(), "\x1b[102mX\x1b[0m".to_string());
}

#[test]
fn bg_br_yellow() {
    assert_eq!(Style::this("X").bg_br_yellow().get_ansi(), "\x1b[103mX\x1b[0m".to_string());
}

#[test]
fn bg_br_blue() {
    assert_eq!(Style::this("X").bg_br_blue().get_ansi(), "\x1b[104mX\x1b[0m".to_string());
}

#[test]
fn bg_br_magenta() {
    assert_eq!(Style::this("X").bg_br_magenta().get_ansi(), "\x1b[105mX\x1b[0m".to_string());
}

#[test]
fn bg_br_cyan() {
    assert_eq!(Style::this("X").bg_br_cyan().get_ansi(), "\x1b[106mX\x1b[0m".to_string());
}

#[test]
fn bold_green_bg_yellow() {
    assert_eq!(Style::this("X").bold().green().bg_yellow().get_ansi(), "\x1b[1;32;43mX\x1b[0m".to_string());
}

#[test]
fn bg_red_underline_cyan() {
    assert_eq!(Style::this("X").bg_red().underline().cyan().get_ansi(), "\x1b[4;36;41mX\x1b[0m".to_string());
}

#[test]
fn br_black_bg_white_italic() {
    assert_eq!(Style::this("X").br_black().bg_white().italic().get_ansi(), "\x1b[3;90;47mX\x1b[0m".to_string());
}

#[test]
fn fg_256() {
    assert_eq!(Style::this("X").fg_256(123).get_ansi(), "\x1b[38;5;123mX\x1b[0m".to_string());
}

#[test]
fn bg_256() {
    assert_eq!(Style::this("X").bg_256(243).get_ansi(), "\x1b[48;5;243mX\x1b[0m".to_string());
}

#[test]
fn fg_256_bg_256() {
    assert_eq!(Style::this("X").fg_256(123).bg_256(243).get_ansi(), "\x1b[38;5;123;48;5;243mX\x1b[0m".to_string());
}

#[test]
fn rgb_fg() {
    assert_eq!(Style::this("X").fg_rgb(123, 87, 92).get_ansi(), "\x1b[38;2;123;87;92mX\x1b[0m".to_string());
}

#[test]
fn rgb_bg() {
    assert_eq!(Style::this("X").bg_rgb(99, 63, 243).get_ansi(), "\x1b[48;2;99;63;243mX\x1b[0m".to_string());
}

#[test]
fn rgb_fg_bg_strike() {
    assert_eq!(Style::this("X").bg_rgb(23, 24, 25).fg_rgb(123, 52, 212).strike().get_ansi(), "\x1b[9;38;2;123;52;212;48;2;23;24;25mX\x1b[0m".to_string());
}

#[test]
fn bold() {
    assert_eq!(Style::this("X").bold().get_ansi(), "\x1b[1mX\x1b[0m".to_string());
}

#[test]
fn faint() {
    assert_eq!(Style::this("X").faint().get_ansi(), "\x1b[2mX\x1b[0m".to_string());
}

#[test]
fn italic() {
    assert_eq!(Style::this("X").italic().get_ansi(), "\x1b[3mX\x1b[0m".to_string());
}

#[test]
fn underline() {
    assert_eq!(Style::this("X").underline().get_ansi(), "\x1b[4mX\x1b[0m".to_string());
}

#[test]
fn invert() {
    assert_eq!(Style::this("X").invert().get_ansi(), "\x1b[7mX\x1b[0m".to_string());
}

#[test]
fn hidden() {
    assert_eq!(Style::this("X").hidden().get_ansi(), "\x1b[8mX\x1b[0m".to_string());
}

#[test]
fn strike() {
    assert_eq!(Style::this("X").strike().get_ansi(), "\x1b[9mX\x1b[0m".to_string());
}

#[test]
fn bg_br_white() {
    assert_eq!(Style::this("X").bg_br_white().get_ansi(), "\x1b[107mX\x1b[0m".to_string());
}

#[test]
fn no_style_is_verbatim() {
    assert_eq!(Style::this("plain text").get_ansi(), "plain text".to_string());
    assert_eq!(Style::this("").get_ansi(), String::new());
    assert_eq!(Style::new().get_ansi(), String::new());
    assert_eq!(Style::default().get_ansi(), String::new());
}

#[test]
fn last_setter_wins() {
    assert_eq!(Style::this("X").red().blue().get_ansi(), "\x1b[34mX\x1b[0m".to_string());
    assert_eq!(Style::this("X").bold().italic().get_ansi(), "\x1b[3mX\x1b[0m".to_string());
    assert_eq!(
        Style::this("X").bg_red().bg_256(7).get_ansi(),
        "\x1b[48;5;7mX\x1b[0m".to_string()
    );
}

#[test]
fn setter_updates_in_place() {
    let mut s = Style::this("X");
    let copy = s.green();
    assert!(matches!(s.fg, Some(Fg::Green)));
    assert!(matches!(copy.fg, Some(Fg::Green)));
    assert!(s.attr.is_none());
    assert!(s.bg.is_none());
    assert_eq!(s.text, "X");
}

#[test]
fn attribute_and_background_only() {
    assert_eq!(Style::this("X").faint().bg_blue().get_ansi(), "\x1b[2;44mX\x1b[0m".to_string());
}

#[test]
fn attribute_and_foreground_only() {
    assert_eq!(Style::this("X").underline().magenta().get_ansi(), "\x1b[4;35mX\x1b[0m".to_string());
}

#[test]
fn palette_bounds() {
    assert_eq!(Style::this("X").fg_256(0).get_ansi(), "\x1b[38;5;0mX\x1b[0m".to_string());
    assert_eq!(Style::this("X").fg_256(255).get_ansi(), "\x1b[38;5;255mX\x1b[0m".to_string());
    assert_eq!(Style::this("X").bg_256(9).get_ansi(), "\x1b[48;5;9mX\x1b[0m".to_string());
    assert_eq!(
        Style::this("X").fg_rgb(0, 10, 255).get_ansi(),
        "\x1b[38;2;0;10;255mX\x1b[0m".to_string()
    );
}

#[test]
fn attribute_with_palette_colors() {
    assert_eq!(
        Style::this("X").fg_256(123).bg_256(243).bold().get_ansi(),
        "\x1b[1;38;5;123;48;5;243mX\x1b[0m".to_string()
    );
}

#[test]
fn styled_empty_text_is_still_wrapped() {
    assert_eq!(Style::this("").red().get_ansi(), "\x1b[31m\x1b[0m".to_string());
}

#[test]
fn get_ansi_leaves_style_unchanged() {
    let mut s = Style::this("X").bold().red();
    let _ = s.get_ansi();
    assert!(matches!(s.attr, Some(Attr::Bold)));
    assert!(matches!(s.fg, Some(Fg::Red)));
}

#[test]
fn get_attr_code_appends() {
    let mut s = Style::this("X").strike();
    let mut out = String::from("ab");
    assert!(s.get_attr_code(&mut out));
    assert_eq!(out, "ab9".to_string());
    let mut plain = Style::this("X");
    let mut out2 = String::from("ab");
    assert!(!plain.get_attr_code(&mut out2));
    assert_eq!(out2, "ab".to_string());
}

#[test]
fn print_string_variants() {
    assert_eq!(Style::this("X").red().print_string(false), "\x1b[31mX\x1b[0m".to_string());
    assert_eq!(Style::this("X").red().print_string(true), "\x1b[31mX\x1b[0m\n".to_string());
    assert_eq!(Style::this("").red().print_string(false), String::new());
    assert_eq!(Style::this("").red().print_string(true), "\n".to_string());
    assert_eq!(Style::this("hi").print_string(true), "hi\n".to_string());
}

#[test]
fn enum_codes() {
    let mut out = String::new();
    Attr::Hide.push_code(&mut out);
    Fg::Rgb(1, 22, 133).push_code(&mut out);
    Bg::BrightBlack.push_code(&mut out);
    Fg::Color256(42).push_code(&mut out);
    assert_eq!(out, "838;2;1;22;13310038;5;42".to_string());
}
