//! The descriptive label of each ASCII code point: a control character's
//! mnemonic with its escape notation and meaning, the glyph of a printable
//! character, or `SPACE` and `DEL` for the two that have none.

use vstd::prelude::*;

verus! {

/// The label of code point `i`, for `0 <= i < 128`.
pub open spec fn label_text(i: int) -> Seq<char> {
    if i == 0 {
        "NUL '\\0' (null character)"@
    } else if i == 1 {
        "SOH (start of heading)"@
    } else if i == 2 {
        "STX (start of text)"@
    } else if i == 3 {
        "ETX (end of text)"@
    } else if i == 4 {
        "EOT (end of transmission)"@
    } else if i == 5 {
        "ENQ (enquiry)"@
    } else if i == 6 {
        "ACK (acknowledge)"@
    } else if i == 7 {
        "BEL '\\a' (bell)"@
    } else if i == 8 {
        "BS  '\\b' (backspace)"@
    } else if i == 9 {
        "HT  '\\t' (horizontal tab)"@
    } else if i == 10 {
        "LF  '\\n' (new line)"@
    } else if i == 11 {
        "VT  '\\v' (vertical tab)"@
    } else if i == 12 {
        "FF  '\\f' (form feed)"@
    } else if i == 13 {
        "CR  '\\r' (carriage ret)"@
    } else if i == 14 {
        "SO  (shift out)"@
    } else if i == 15 {
        "SI  (shift in)"@
    } else if i == 16 {
        "DLE (data link escape)"@
    } else if i == 17 {
        "DC1 (device control 1)"@
    } else if i == 18 {
        "DC2 (device control 2)"@
    } else if i == 19 {
        "DC3 (device control 3)"@
    } else if i == 20 {
        "DC4 (device control 4)"@
    } else if i == 21 {
        "NAK (negative ack.)"@
    } else if i == 22 {
        "SYN (synchronous idle)"@
    } else if i == 23 {
        "ETB (end of trans. blk)"@
    } else if i == 24 {
        "CAN (cancel)"@
    } else if i == 25 {
        "EM  (end of medium)"@
    } else if i == 26 {
        "SUB (substitute)"@
    } else if i == 27 {
        "ESC (escape)"@
    } else if i == 28 {
        "FS  (file separator)"@
    } else if i == 29 {
        "GS  (group separator)"@
    } else if i == 30 {
        "RS  (record separator)"@
    } else if i == 31 {
        "US  (unit separator)"@
    } else if i == 32 {
        "SPACE"@
    } else if i == 33 {
        "!"@
    } else if i == 34 {
        "\""@
    } else if i == 35 {
        "#"@
    } else if i == 36 {
        "$"@
    } else if i == 37 {
        "%"@
    } else if i == 38 {
        "&"@
    } else if i == 39 {
        "'"@
    } else if i == 40 {
        "("@
    } else if i == 41 {
        ")"@
    } else if i == 42 {
        "*"@
    } else if i == 43 {
        "+"@
    } else if i == 44 {
        ","@
    } else if i == 45 {
        "-"@
    } else if i == 46 {
        "."@
    } else if i == 47 {
        "/"@
    } else if i == 48 {
        "0"@
    } else if i == 49 {
        "1"@
    } else if i == 50 {
        "2"@
    } else if i == 51 {
        "3"@
    } else if i == 52 {
        "4"@
    } else if i == 53 {
        "5"@
    } else if i == 54 {
        "6"@
    } else if i == 55 {
        "7"@
    } else if i == 56 {
        "8"@
    } else if i == 57 {
        "9"@
    } else if i == 58 {
        ":"@
    } else if i == 59 {
        ";"@
    } else if i == 60 {
        "<"@
    } else if i == 61 {
        "="@
    } else if i == 62 {
        ">"@
    } else if i == 63 {
        "?"@
    } else if i == 64 {
        "@"@
    } else if i == 65 {
        "A"@
    } else if i == 66 {
        "B"@
    } else if i == 67 {
        "C"@
    } else if i == 68 {
        "D"@
    } else if i == 69 {
        "E"@
    } else if i == 70 {
        "F"@
    } else if i == 71 {
        "G"@
    } else if i == 72 {
        "H"@
    } else if i == 73 {
        "I"@
    } else if i == 74 {
        "J"@
    } else if i == 75 {
        "K"@
    } else if i == 76 {
        "L"@
    } else if i == 77 {
        "M"@
    } else if i == 78 {
        "N"@
    } else if i == 79 {
        "O"@
    } else if i == 80 {
        "P"@
    } else if i == 81 {
        "Q"@
    } else if i == 82 {
        "R"@
    } else if i == 83 {
        "S"@
    } else if i == 84 {
        "T"@
    } else if i == 85 {
        "U"@
    } else if i == 86 {
        "V"@
    } else if i == 87 {
        "W"@
    } else if i == 88 {
        "X"@
    } else if i == 89 {
        "Y"@
    } else if i == 90 {
        "Z"@
    } else if i == 91 {
        "["@
    } else if i == 92 {
        "\\  '\\\\'"@
    } else if i == 93 {
        "]"@
    } else if i == 94 {
        "^"@
    } else if i == 95 {
        "_"@
    } else if i == 96 {
        "`"@
    } else if i == 97 {
        "a"@
    } else if i == 98 {
        "b"@
    } else if i == 99 {
        "c"@
    } else if i == 100 {
        "d"@
    } else if i == 101 {
        "e"@
    } else if i == 102 {
        "f"@
    } else if i == 103 {
        "g"@
    } else if i == 104 {
        "h"@
    } else if i == 105 {
        "i"@
    } else if i == 106 {
        "j"@
    } else if i == 107 {
        "k"@
    } else if i == 108 {
        "l"@
    } else if i == 109 {
        "m"@
    } else if i == 110 {
        "n"@
    } else if i == 111 {
        "o"@
    } else if i == 112 {
        "p"@
    } else if i == 113 {
        "q"@
    } else if i == 114 {
        "r"@
    } else if i == 115 {
        "s"@
    } else if i == 116 {
        "t"@
    } else if i == 117 {
        "u"@
    } else if i == 118 {
        "v"@
    } else if i == 119 {
        "w"@
    } else if i == 120 {
        "x"@
    } else if i == 121 {
        "y"@
    } else if i == 122 {
        "z"@
    } else if i == 123 {
        "{"@
    } else if i == 124 {
        "|"@
    } else if i == 125 {
        "}"@
    } else if i == 126 {
        "~"@
    } else {
        "DEL"@
    }
}

/// The label of code point `i`.
pub fn label(i: usize) -> (r: &'static str)
    requires
        i < 128,
    ensures
        r@ == label_text(i as int),
{
    match i {
        0 => "NUL '\\0' (null character)",
        1 => "SOH (start of heading)",
        2 => "STX (start of text)",
        3 => "ETX (end of text)",
        4 => "EOT (end of transmission)",
        5 => "ENQ (enquiry)",
        6 => "ACK (acknowledge)",
        7 => "BEL '\\a' (bell)",
        8 => "BS  '\\b' (backspace)",
        9 => "HT  '\\t' (horizontal tab)",
        10 => "LF  '\\n' (new line)",
        11 => "VT  '\\v' (vertical tab)",
        12 => "FF  '\\f' (form feed)",
        13 => "CR  '\\r' (carriage ret)",
        14 => "SO  (shift out)",
        15 => "SI  (shift in)",
        16 => "DLE (data link escape)",
        17 => "DC1 (device control 1)",
        18 => "DC2 (device control 2)",
        19 => "DC3 (device control 3)",
        20 => "DC4 (device control 4)",
        21 => "NAK (negative ack.)",
        22 => "SYN (synchronous idle)",
        23 => "ETB (end of trans. blk)",
        24 => "CAN (cancel)",
        25 => "EM  (end of medium)",
        26 => "SUB (substitute)",
        27 => "ESC (escape)",
        28 => "FS  (file separator)",
        29 => "GS  (group separator)",
        30 => "RS  (record separator)",
        31 => "US  (unit separator)",
        32 => "SPACE",
        33 => "!",
        34 => "\"",
        35 => "#",
        36 => "$",
        37 => "%",
        38 => "&",
        39 => "'",
        40 => "(",
        41 => ")",
        42 => "*",
        43 => "+",
        44 => ",",
        45 => "-",
        46 => ".",
        47 => "/",
        48 => "0",
        49 => "1",
        50 => "2",
        51 => "3",
        52 => "4",
        53 => "5",
        54 => "6",
        55 => "7",
        56 => "8",
        57 => "9",
        58 => ":",
        59 => ";",
        60 => "<",
        61 => "=",
        62 => ">",
        63 => "?",
        64 => "@",
        65 => "A",
        66 => "B",
        67 => "C",
        68 => "D",
        69 => "E",
        70 => "F",
        71 => "G",
        72 => "H",
        73 => "I",
        74 => "J",
        75 => "K",
        76 => "L",
        77 => "M",
        78 => "N",
        79 => "O",
        80 => "P",
        81 => "Q",
        82 => "R",
        83 => "S",
        84 => "T",
        85 => "U",
        86 => "V",
        87 => "W",
        88 => "X",
        89 => "Y",
        90 => "Z",
        91 => "[",
        92 => "\\  '\\\\'",
        93 => "]",
        94 => "^",
        95 => "_",
        96 => "`",
        97 => "a",
        98 => "b",
        99 => "c",
        100 => "d",
        101 => "e",
        102 => "f",
        103 => "g",
        104 => "h",
        105 => "i",
        106 => "j",
        107 => "k",
        108 => "l",
        109 => "m",
        110 => "n",
        111 => "o",
        112 => "p",
        113 => "q",
        114 => "r",
        115 => "s",
        116 => "t",
        117 => "u",
        118 => "v",
        119 => "w",
        120 => "x",
        121 => "y",
        122 => "z",
        123 => "{",
        124 => "|",
        125 => "}",
        126 => "~",
        _ => "DEL",
    }
}

} // verus!
