use windows_exe_info::text::{chars_of, replace, split_at_blanks};

const SAMPLES: [&str; 24] = [
    "",
    " ",
    "  ",
    "a",
    "a b",
    " a b ",
    "a  b",
    "[ID]",
    "[ID][ID]",
    "[[ID]]",
    "[I[ID]D]",
    "x[ID]y[ID]",
    "[PATH] [ID] [PATH]",
    "aaa",
    "aaaa",
    "aaaaa",
    "abababa",
    "C:\\Program Files\\app\\icon.ico",
    "\\\\server\\share",
    "line\nfeed",
    "überweiß – straße",
    "日本語 テキスト",
    "-i [INPUT] -O coff -F [ARCH] -o [OUTPUT] -v",
    "tab\tand blank ",
];

const PATTERNS: [&str; 12] =
    ["", " ", "a", "aa", "aba", "[ID]", "[PATH]", "\\", "\n", "ß", "語", "[INPUT]"];

const SUBSTITUTES: [&str; 6] = ["", "/", " ", "icon7", "[ID]", "é"];

#[test]
fn replace_is_the_replace_of_the_standard_library() {
    for s in SAMPLES {
        for from in PATTERNS {
            for to in SUBSTITUTES {
                assert_eq!(replace(s, from, to), s.replace(from, to), "{:?} {:?} {:?}", s, from, to);
            }
        }
    }
}

#[test]
fn replace_on_chosen_texts() {
    assert_eq!(replace("aaaa", "aa", "b"), "bb");
    assert_eq!(replace("aaaaa", "aa", "b"), "bba");
    assert_eq!(replace("abc", "", "-"), "-a-b-c-");
    assert_eq!(replace("", "", "-"), "-");
    assert_eq!(replace("", "x", "-"), "");
    assert_eq!(replace("a\\b\\c", "\\", "/"), "a/b/c");
    assert_eq!(replace("[ID] ICON", "[ID]", "icon0"), "icon0 ICON");
    assert_eq!(replace("none here", "[ID]", "icon0"), "none here");
}

#[test]
fn split_is_the_split_of_the_standard_library() {
    for s in SAMPLES {
        let expected: Vec<String> = s.split(" ").map(String::from).collect();
        assert_eq!(split_at_blanks(s), expected, "{:?}", s);
    }
}

#[test]
fn split_on_chosen_texts() {
    assert_eq!(split_at_blanks(""), [""]);
    assert_eq!(split_at_blanks(" "), ["", ""]);
    assert_eq!(split_at_blanks("a b"), ["a", "b"]);
    assert_eq!(split_at_blanks("a  b "), ["a", "", "b", ""]);
    assert_eq!(split_at_blanks("one"), ["one"]);
}

#[test]
fn chars_of_gives_each_character() {
    assert_eq!(chars_of(""), Vec::<char>::new());
    assert_eq!(chars_of("aé語"), ['a', 'é', '語']);
}
