use std::collections::{BTreeMap, BTreeSet, HashMap, HashSet, VecDeque};

use ansi_term::Color as AnsiColor;
use color_display::{
    BTreeMapFormat, BTreeSetFormat, BoolFormat, CharFormat, Color, ColorDisplay, Format, HashMapFormat,
    HashSetFormat, ResultFormat, SliceFormat, StrFormat, StyleDesc, U8Format, VecDequeFormat, VecFormat,
};

#[test]
fn bool_color_fmt() {
    let b = true;
    let mut sink = String::with_capacity(1024);
    b.color_fmt(&mut sink, &BoolFormat::standard(0));
    let expected = format!("{}", AnsiColor::Purple.bold().paint(format!("{b}")));
    assert_eq!(sink, expected);
}

#[test]
fn btree_map_color_fmt() {
    let mut map: BTreeMap<u8, &str> = BTreeMap::new();
    map.insert(10, "ten");
    map.insert(20, "twenty");
    map.insert(30, "thirty");
    let mut sink = String::with_capacity(1024);
    map.color_fmt(&mut sink, &BTreeMapFormat {
        prefix_newlines: 1,
        intersperse_newlines: 1,
        suffix_newlines: 1,
        key_value_separator: " = ",
        key_format: U8Format { prefix: "-> ", ..U8Format::colored(1) },
        value_format: StrFormat::colored(0),
    });
    let expected = format!(
        "\n    -> {} = {}\n    -> {} = {}\n    -> {} = {}\n",
        AnsiColor::Blue.bold().paint("10"),
        AnsiColor::Green.paint("ten"),
        AnsiColor::Blue.bold().paint("20"),
        AnsiColor::Green.paint("twenty"),
        AnsiColor::Blue.bold().paint("30"),
        AnsiColor::Green.paint("thirty"),
    );
    assert_eq!(sink, expected);
}

#[test]
fn btree_set_color_fmt() {
    let mut set: BTreeSet<u8> = BTreeSet::new();
    set.insert(10);
    set.insert(20);
    set.insert(30);
    let mut sink = String::with_capacity(1024);
    set.color_fmt(&mut sink, &BTreeSetFormat {
        prefix_newlines: 1,
        intersperse_newlines: 1,
        suffix_newlines: 1,
        item_format: U8Format { prefix: "->", ..U8Format::standard(1) },
    });
    let expected = format!(
        "\n    ->{}\n    ->{}\n    ->{}\n",
        AnsiColor::Blue.bold().paint("10"),
        AnsiColor::Blue.bold().paint("20"),
        AnsiColor::Blue.bold().paint("30"),
    );
    assert_eq!(sink, expected);
}

#[test]
fn char_color_fmt() {
    let c = 'C';
    let mut sink = String::with_capacity(1024);
    c.color_fmt(&mut sink, &CharFormat::colored(0));
    // Characters, like strings, default to the unbold accent color.
    let expected = format!("{}", AnsiColor::Green.paint(&c.to_string()));
    assert_eq!(sink, expected);
}

#[test]
fn hash_map_color_fmt() {
    let mut map: HashMap<u8, &str> = HashMap::new();
    map.insert(10, "ten");
    map.insert(20, "twenty");
    map.insert(30, "thirty");
    let mut sink = String::with_capacity(1024);
    map.color_fmt(&mut sink, &HashMapFormat {
        prefix_newlines: 1,
        intersperse_newlines: 1,
        suffix_newlines: 1,
        key_value_separator: " = ",
        key_format: U8Format { prefix: "-> ", ..U8Format::standard(1) },
        value_format: StrFormat::standard(0),
    });
    // One map yields its entries in the same order each time it is walked.
    let vec: Vec<(&u8, &&str)> = map.iter().collect();
    let expected = format!(
        "\n    -> {} = {}\n    -> {} = {}\n    -> {} = {}\n",
        AnsiColor::Blue.bold().paint(format!("{}", &vec[0].0)),
        AnsiColor::Green.paint(format!("{}", &vec[0].1)),
        AnsiColor::Blue.bold().paint(format!("{}", &vec[1].0)),
        AnsiColor::Green.paint(format!("{}", &vec[1].1)),
        AnsiColor::Blue.bold().paint(format!("{}", &vec[2].0)),
        AnsiColor::Green.paint(format!("{}", &vec[2].1)),
    );
    assert_eq!(sink, expected);
}

#[test]
fn hash_set_color_fmt() {
    let mut set: HashSet<u8> = HashSet::new();
    set.insert(10);
    set.insert(20);
    set.insert(30);
    let mut sink = String::with_capacity(1024);
    set.color_fmt(&mut sink, &HashSetFormat {
        prefix_newlines: 1,
        intersperse_newlines: 1,
        suffix_newlines: 1,
        item_format: U8Format {
            prefix: "->",
            style_desc: Some(StyleDesc { color: Color::Red, bold: true, italic: false, underline: false, dimmed: false }),
            ..U8Format::standard(1)
        },
    });
    // One set yields its elements in the same order each time it is walked.
    let vec: Vec<_> = set.iter().collect();
    let expected = format!(
        "\n    ->{}\n    ->{}\n    ->{}\n",
        AnsiColor::Red.bold().paint(format!("{}", vec[0])),
        AnsiColor::Red.bold().paint(format!("{}", vec[1])),
        AnsiColor::Red.bold().paint(format!("{}", vec[2])),
    );
    assert_eq!(sink, expected);
}

fn result_format() -> ResultFormat<StrFormat, StrFormat> {
    ResultFormat {
        ok_format: StrFormat {
            style_desc: Some(StyleDesc { color: Color::Green, bold: false, italic: false, underline: false, dimmed: false }),
            ..StrFormat::colored(0)
        },
        err_format: StrFormat {
            style_desc: Some(StyleDesc { color: Color::Red, bold: true, italic: false, underline: false, dimmed: false }),
            ..StrFormat::colored(0)
        },
        ..ResultFormat::colored(1)
    }
}

#[test]
fn ok_color_fmt() {
    let ok_result: Result<&str, &str> = Ok("hello");
    let mut sink = String::with_capacity(1024);
    ok_result.color_fmt(&mut sink, &result_format());
    let expected = format!("\u{2705} {}", AnsiColor::Green.paint("hello"));
    assert_eq!(sink, expected);
}

#[test]
fn err_color_fmt() {
    let ok_result: Result<&str, &str> = Err("oh no");
    let mut sink = String::with_capacity(1024);
    ok_result.color_fmt(&mut sink, &result_format());
    let expected = format!("\u{274c} {}", AnsiColor::Red.bold().paint("oh no"));
    assert_eq!(sink, expected);
}

#[test]
fn slice_color_fmt() {
    let slice: &[u8] = &[10, 20, 30];
    let mut sink = String::with_capacity(1024);
    slice.color_fmt(&mut sink, &SliceFormat {
        prefix_newlines: 1,
        intersperse_newlines: 1,
        suffix_newlines: 1,
        item_format: U8Format::colored(1),
    });
    let expected = format!(
        "\n    {}\n    {}\n    {}\n",
        AnsiColor::Blue.bold().paint("10"),
        AnsiColor::Blue.bold().paint("20"),
        AnsiColor::Blue.bold().paint("30"),
    );
    assert_eq!(sink, expected);
}

#[test]
fn str_color_fmt() {
    let s = "Alice and Bob have a drink, but Alice poisons Bob.";
    let mut sink = String::with_capacity(1024);
    s.color_fmt(&mut sink, &StrFormat {
        indent: 0,
        delimiter: "",
        prefix: "",
        style_desc: Some(StyleDesc { color: Color::Red, bold: true, italic: false, underline: true, dimmed: false }),
    });
    let expected = format!("{}", AnsiColor::Red.bold().underline().paint(s));
    assert_eq!(sink, expected);
}

#[test]
fn vec_color_fmt() {
    let slice: Vec<u8> = vec![10, 20, 30];
    let mut sink = String::with_capacity(1024);
    slice.color_fmt(&mut sink, &VecFormat {
        prefix_newlines: 1,
        intersperse_newlines: 1,
        suffix_newlines: 1,
        item_format: U8Format {
            indent: 0,
            prefix: "",
            delimiter: "",
            style_desc: Some(StyleDesc { color: Color::Purple, bold: false, italic: false, underline: false, dimmed: false }),
        },
    });
    let expected = format!(
        "\n{}\n{}\n{}\n",
        AnsiColor::Purple.paint("10"),
        AnsiColor::Purple.paint("20"),
        AnsiColor::Purple.paint("30"),
    );
    assert_eq!(sink, expected);
}

#[test]
fn vec_deque_color_fmt() {
    let mut vec_deque = VecDeque::new();
    vec_deque.push_front(20);
    vec_deque.push_front(10);
    vec_deque.push_back(30);
    vec_deque.push_back(40);
    let mut sink = String::with_capacity(1024);
    vec_deque.color_fmt(&mut sink, &VecDequeFormat::standard(1));
    let expected = format!(
        "    {}\n    {}\n{}\n    {}\n    {}",
        AnsiColor::Blue.bold().paint("10"),
        AnsiColor::Blue.bold().paint("20"),
        "----------------------------------------",
        AnsiColor::Blue.bold().paint("30"),
        AnsiColor::Blue.bold().paint("40"),
    );
    assert_eq!(sink, expected);
}
