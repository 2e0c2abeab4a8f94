use std::collections::{BTreeMap, BTreeSet, HashMap, VecDeque};

use ansi_term::Color as AnsiColor;
use color_display::{
    BTreeMapFormat, BTreeSetFormat, BoolFormat, CharFormat, Color, ColorDisplay, Format, HashMapFormat,
    I128Format, I16Format, I32Format, I64Format, I8Format, IsizeFormat, NumFormat, ResultFormat, StrFormat,
    StyleDesc, TermStyle, U128Format, U16Format, U32Format, U64Format, U8Format, UsizeFormat, VecDequeFormat,
    VecFormat,
};

fn render<T: ColorDisplay<F> + ?Sized, F>(value: &T, format: &F) -> String {
    let mut sink = String::new();
    value.color_fmt(&mut sink, format);
    sink
}

#[test]
fn style_resolution_is_repeatable() {
    let desc = Some(StyleDesc { color: Color::Cyan, bold: true, italic: true, underline: false, dimmed: true });
    let first = StyleDesc::style_from_desc(desc);
    let second = StyleDesc::style_from_desc(desc);
    assert_eq!(first, second);
    let format = StrFormat { style_desc: desc, ..StrFormat::colored(0) };
    assert_eq!(render("abc", &format), render("abc", &format));
    assert_eq!(render("abc", &format), format!("{}", AnsiColor::Cyan.bold().italic().dimmed().paint("abc")));
}

#[test]
fn style_resolution_applies_each_flag() {
    let style = StyleDesc::style_from_desc(Some(StyleDesc {
        color: Color::Yellow,
        bold: false,
        italic: true,
        underline: true,
        dimmed: false,
    }));
    assert_eq!(style, TermStyle {
        foreground: Some(Color::Yellow),
        bold: false,
        dimmed: false,
        italic: true,
        underline: true,
    });
    assert_eq!(StyleDesc::style_from_desc(None), TermStyle::plain());
}

#[test]
fn monochrome_output_has_no_escape() {
    let mut map: BTreeMap<u8, Vec<&str>> = BTreeMap::new();
    map.insert(1, vec!["a", "b"]);
    map.insert(2, vec![]);
    let format: BTreeMapFormat<U8Format, VecFormat<StrFormat>> = BTreeMapFormat::monochrome(1);
    let out = render(&map, &format);
    assert!(!out.contains('\x1b'));
    assert_eq!(out, "    1:     a\n    b\n    2: ");
}

#[test]
fn monochrome_leaves_are_plain_text() {
    assert_eq!(render(&false, &BoolFormat::monochrome(0)), "false");
    assert_eq!(render(&'x', &CharFormat::monochrome(1)), "    x");
    assert_eq!(render("txt", &StrFormat::monochrome(0)), "txt");
    assert_eq!(render(&-7i32, &NumFormat::monochrome(2)), "        -7");
}

#[test]
fn indentation_adds_one_token() {
    let shallow = render(&true, &BoolFormat { prefix: "> ", delimiter: "|", ..BoolFormat::standard(2) });
    let deep = render(&true, &BoolFormat { prefix: "> ", delimiter: "|", ..BoolFormat::standard(3) });
    assert_eq!(deep, format!("    {}", shallow));
}

#[test]
fn blank_lines_between_elements_are_exact() {
    let v: Vec<u8> = vec![1, 2, 3];
    let format = VecFormat { prefix_newlines: 0, intersperse_newlines: 3, suffix_newlines: 0, item_format: U8Format::monochrome(0) };
    assert_eq!(render(&v, &format), "1\n\n\n2\n\n\n3");
    let single: Vec<u8> = vec![9];
    assert_eq!(render(&single, &format), "9");
}

#[test]
fn empty_vec_renders_only_newlines() {
    let v: Vec<u8> = Vec::new();
    let format = VecFormat { prefix_newlines: 2, intersperse_newlines: 5, suffix_newlines: 1, item_format: U8Format::colored(0) };
    assert_eq!(render(&v, &format), "\n\n\n");
}

#[test]
fn result_renders_one_branch() {
    let format: ResultFormat<U8Format, StrFormat> = ResultFormat::monochrome(0);
    let ok: Result<u8, &str> = Ok(5);
    let err: Result<u8, &str> = Err("bad");
    assert_eq!(render(&ok, &format), "\u{2705} 5");
    assert_eq!(render(&err, &format), "\u{274c} bad");
}

#[test]
fn ordered_map_ignores_insertion_order() {
    let mut first: BTreeMap<i16, char> = BTreeMap::new();
    first.insert(3, 'c');
    first.insert(-1, 'a');
    first.insert(2, 'b');
    let mut second: BTreeMap<i16, char> = BTreeMap::new();
    second.insert(2, 'b');
    second.insert(3, 'c');
    second.insert(-1, 'a');
    let format: BTreeMapFormat<I16Format, CharFormat> = BTreeMapFormat::monochrome(0);
    assert_eq!(render(&first, &format), render(&second, &format));
    assert_eq!(render(&first, &format), "-1: a\n2: b\n3: c");
}

#[test]
fn ordered_set_renders_ascending() {
    let mut set: BTreeSet<u32> = BTreeSet::new();
    set.insert(300);
    set.insert(7);
    set.insert(41);
    let format: BTreeSetFormat<U32Format> = BTreeSetFormat::monochrome(0);
    assert_eq!(render(&set, &format), "7\n41\n300");
}

#[test]
fn bool_standard_scenario() {
    let out = render(&true, &BoolFormat::standard(0));
    assert_eq!(out, format!("{}", AnsiColor::Purple.bold().paint("true")));
    assert!(!out.starts_with(' '));
}

#[test]
fn ordered_map_scenario() {
    let mut map: BTreeMap<u8, &str> = BTreeMap::new();
    map.insert(30, "thirty");
    map.insert(10, "ten");
    map.insert(20, "twenty");
    let format = BTreeMapFormat {
        prefix_newlines: 1,
        intersperse_newlines: 1,
        suffix_newlines: 1,
        key_value_separator: " = ",
        key_format: U8Format::standard(0),
        value_format: StrFormat::standard(0),
    };
    let expected = format!(
        "\n{} = {}\n{} = {}\n{} = {}\n",
        AnsiColor::Blue.bold().paint("10"),
        AnsiColor::Green.paint("ten"),
        AnsiColor::Blue.bold().paint("20"),
        AnsiColor::Green.paint("twenty"),
        AnsiColor::Blue.bold().paint("30"),
        AnsiColor::Green.paint("thirty"),
    );
    assert_eq!(render(&map, &format), expected);
}

#[test]
fn deque_scenario() {
    let mut q: VecDeque<u8> = VecDeque::new();
    q.push_front(20);
    q.push_front(10);
    q.push_back(30);
    q.push_back(40);
    let format: VecDequeFormat<U8Format> = VecDequeFormat::monochrome(0);
    assert_eq!(render(&q, &format), format!("10\n20\n{}\n30\n40", "-".repeat(40)));
}

#[test]
fn empty_deque_still_has_divider() {
    let q: VecDeque<u8> = VecDeque::new();
    let format: VecDequeFormat<U8Format> = VecDequeFormat::monochrome(0);
    assert_eq!(render(&q, &format), format!("\n{}\n", "-".repeat(40)));
}

#[test]
fn deque_with_one_segment_empty() {
    let mut q: VecDeque<u8> = VecDeque::new();
    q.push_back(1);
    q.push_back(2);
    let format = VecDequeFormat {
        front_back_separator_token: "=+",
        front_back_separator_count: 3,
        ..VecDequeFormat::<U8Format>::monochrome(0)
    };
    let out = render(&q, &format);
    assert_eq!(out.matches("=+=+=+").count(), 1);
    assert!(out == "1\n2\n=+=+=+\n" || out == "\n=+=+=+\n1\n2");
}

#[test]
fn hash_map_lists_every_entry_once() {
    let mut map: HashMap<u64, bool> = HashMap::new();
    map.insert(1, true);
    map.insert(2, false);
    let format: HashMapFormat<U64Format, BoolFormat> = HashMapFormat::monochrome(0);
    let out = render(&map, &format);
    assert!(out == "1: true\n2: false" || out == "2: false\n1: true");
}

#[test]
fn char_delimiters_wrap_payload() {
    let format = CharFormat { delimiter: "'", prefix: "c=", ..CharFormat::colored(1) };
    let expected = format!("    c='{}'", AnsiColor::Green.paint("q"));
    assert_eq!(render(&'q', &format), expected);
}

#[test]
fn str_delimiters_wrap_payload() {
    let format = StrFormat { delimiter: "\"", ..StrFormat::monochrome(0) };
    assert_eq!(render("hi", &format), "\"hi\"");
}

#[test]
fn painted_text_differs_from_plain_text() {
    let styled = render("x", &StrFormat::colored(0));
    assert_ne!(styled, "x");
    assert!(styled.starts_with('\x1b'));
}

#[test]
fn each_color_maps_to_its_terminal_color() {
    let pairs = [
        (Color::Black, AnsiColor::Black),
        (Color::Red, AnsiColor::Red),
        (Color::Green, AnsiColor::Green),
        (Color::Yellow, AnsiColor::Yellow),
        (Color::Blue, AnsiColor::Blue),
        (Color::Purple, AnsiColor::Purple),
        (Color::Cyan, AnsiColor::Cyan),
        (Color::White, AnsiColor::White),
    ];
    for (mine, theirs) in pairs {
        let format = StrFormat {
            style_desc: Some(StyleDesc { color: mine, bold: false, italic: false, underline: false, dimmed: false }),
            ..StrFormat::monochrome(0)
        };
        assert_eq!(render("z", &format), format!("{}", theirs.paint("z")));
    }
}

#[test]
fn integer_extremes_in_decimal() {
    assert_eq!(render(&i8::MIN, &I8Format::monochrome(0)), "-128");
    assert_eq!(render(&i64::MIN, &I64Format::monochrome(0)), "-9223372036854775808");
    assert_eq!(render(&u128::MAX, &U128Format::monochrome(0)), "340282366920938463463374607431768211455");
    assert_eq!(render(&0usize, &UsizeFormat::monochrome(0)), "0");
}

#[test]
fn color_fmt_i8() {
    let num = 42 as i8;
    let mut sink = String::with_capacity(1024);
    num.color_fmt(&mut sink, &I8Format {
        indent: 0,
        prefix: "",
        delimiter: "",
        style_desc: Some(StyleDesc { color: Color::Yellow, bold: false, italic: true, underline: false, dimmed: true }),
    });
    let expected = format!("{}", AnsiColor::Yellow.italic().dimmed().paint("42"));
    assert_eq!(sink, expected);
}

#[test]
fn color_fmt_i16() {
    let num = 42 as i16;
    let mut sink = String::with_capacity(1024);
    num.color_fmt(&mut sink, &I16Format {
        indent: 0,
        prefix: "",
        delimiter: "",
        style_desc: Some(StyleDesc { color: Color::Yellow, bold: false, italic: true, underline: false, dimmed: true }),
    });
    let expected = format!("{}", AnsiColor::Yellow.italic().dimmed().paint("42"));
    assert_eq!(sink, expected);
}

#[test]
fn color_fmt_i32() {
    let num = 42 as i32;
    let mut sink = String::with_capacity(1024);
    num.color_fmt(&mut sink, &I32Format {
        indent: 0,
        prefix: "",
        delimiter: "",
        style_desc: Some(StyleDesc { color: Color::Yellow, bold: false, italic: true, underline: false, dimmed: true }),
    });
    let expected = format!("{}", AnsiColor::Yellow.italic().dimmed().paint("42"));
    assert_eq!(sink, expected);
}

#[test]
fn color_fmt_i64() {
    let num = 42 as i64;
    let mut sink = String::with_capacity(1024);
    num.color_fmt(&mut sink, &I64Format {
        indent: 0,
        prefix: "",
        delimiter: "",
        style_desc: Some(StyleDesc { color: Color::Yellow, bold: false, italic: true, underline: false, dimmed: true }),
    });
    let expected = format!("{}", AnsiColor::Yellow.italic().dimmed().paint("42"));
    assert_eq!(sink, expected);
}

#[test]
fn color_fmt_i128() {
    let num = 42 as i128;
    let mut sink = String::with_capacity(1024);
    num.color_fmt(&mut sink, &I128Format {
        indent: 0,
        prefix: "",
        delimiter: "",
        style_desc: Some(StyleDesc { color: Color::Yellow, bold: false, italic: true, underline: false, dimmed: true }),
    });
    let expected = format!("{}", AnsiColor::Yellow.italic().dimmed().paint("42"));
    assert_eq!(sink, expected);
}

#[test]
fn color_fmt_isize() {
    let num = 42 as isize;
    let mut sink = String::with_capacity(1024);
    num.color_fmt(&mut sink, &IsizeFormat {
        indent: 0,
        prefix: "",
        delimiter: "",
        style_desc: Some(StyleDesc { color: Color::Yellow, bold: false, italic: true, underline: false, dimmed: true }),
    });
    let expected = format!("{}", AnsiColor::Yellow.italic().dimmed().paint("42"));
    assert_eq!(sink, expected);
}

#[test]
fn color_fmt_u8() {
    let num = 42 as u8;
    let mut sink = String::with_capacity(1024);
    num.color_fmt(&mut sink, &U8Format {
        indent: 0,
        prefix: "",
        delimiter: "",
        style_desc: Some(StyleDesc { color: Color::Yellow, bold: false, italic: true, underline: false, dimmed: true }),
    });
    let expected = format!("{}", AnsiColor::Yellow.italic().dimmed().paint("42"));
    assert_eq!(sink, expected);
}

#[test]
fn color_fmt_u16() {
    let num = 42 as u16;
    let mut sink = String::with_capacity(1024);
    num.color_fmt(&mut sink, &U16Format {
        indent: 0,
        prefix: "",
        delimiter: "",
        style_desc: Some(StyleDesc { color: Color::Yellow, bold: false, italic: true, underline: false, dimmed: true }),
    });
    let expected = format!("{}", AnsiColor::Yellow.italic().dimmed().paint("42"));
    assert_eq!(sink, expected);
}

#[test]
fn color_fmt_u32() {
    let num = 42 as u32;
    let mut sink = String::with_capacity(1024);
    num.color_fmt(&mut sink, &U32Format {
        indent: 0,
        prefix: "",
        delimiter: "",
        style_desc: Some(StyleDesc { color: Color::Yellow, bold: false, italic: true, underline: false, dimmed: true }),
    });
    let expected = format!("{}", AnsiColor::Yellow.italic().dimmed().paint("42"));
    assert_eq!(sink, expected);
}

#[test]
fn color_fmt_u64() {
    let num = 42 as u64;
    let mut sink = String::with_capacity(1024);
    num.color_fmt(&mut sink, &U64Format {
        indent: 0,
        prefix: "",
        delimiter: "",
        style_desc: Some(StyleDesc { color: Color::Yellow, bold: false, italic: true, underline: false, dimmed: true }),
    });
    let expected = format!("{}", AnsiColor::Yellow.italic().dimmed().paint("42"));
    assert_eq!(sink, expected);
}

#[test]
fn color_fmt_u128() {
    let num = 42 as u128;
    let mut sink = String::with_capacity(1024);
    num.color_fmt(&mut sink, &U128Format {
        indent: 0,
        prefix: "",
        delimiter: "",
        style_desc: Some(StyleDesc { color: Color::Yellow, bold: false, italic: true, underline: false, dimmed: true }),
    });
    let expected = format!("{}", AnsiColor::Yellow.italic().dimmed().paint("42"));
    assert_eq!(sink, expected);
}

#[test]
fn color_fmt_usize() {
    let num = 42 as usize;
    let mut sink = String::with_capacity(1024);
    num.color_fmt(&mut sink, &UsizeFormat {
        indent: 0,
        prefix: "",
        delimiter: "",
        style_desc: Some(StyleDesc { color: Color::Yellow, bold: false, italic: true, underline: false, dimmed: true }),
    });
    let expected = format!("{}", AnsiColor::Yellow.italic().dimmed().paint("42"));
    assert_eq!(sink, expected);
}
