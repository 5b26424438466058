//! Decimal rendering and the exact shape of every progress line.

use vstd::prelude::*;
use vstd::string::StringExecFns;

verus! {

/// The decimal digit character for a value below ten.
pub open spec fn digit_char(d: int) -> char {
    if d == 0 {
        '0'
    } else if d == 1 {
        '1'
    } else if d == 2 {
        '2'
    } else if d == 3 {
        '3'
    } else if d == 4 {
        '4'
    } else if d == 5 {
        '5'
    } else if d == 6 {
        '6'
    } else if d == 7 {
        '7'
    } else if d == 8 {
        '8'
    } else {
        '9'
    }
}

/// The decimal rendering of a natural number, most significant digit first,
/// without leading zeros (a lone zero for the number zero).
pub open spec fn dec_str(n: nat) -> Seq<char>
    decreases n,
{
    if n < 10 {
        seq![digit_char(n as int)]
    } else {
        dec_str(n / 10) + seq![digit_char((n % 10) as int)]
    }
}

fn digit_str(d: u64) -> (r: &'static str)
    requires
        d < 10,
    ensures
        r@ == seq![digit_char(d as int)],
{
    let r: &'static str = if d == 0 {
        "0"
    } else if d == 1 {
        "1"
    } else if d == 2 {
        "2"
    } else if d == 3 {
        "3"
    } else if d == 4 {
        "4"
    } else if d == 5 {
        "5"
    } else if d == 6 {
        "6"
    } else if d == 7 {
        "7"
    } else if d == 8 {
        "8"
    } else {
        "9"
    };
    proof {
        reveal_strlit("0");
        reveal_strlit("1");
        reveal_strlit("2");
        reveal_strlit("3");
        reveal_strlit("4");
        reveal_strlit("5");
        reveal_strlit("6");
        reveal_strlit("7");
        reveal_strlit("8");
        reveal_strlit("9");
        assert(r@ =~= seq![digit_char(d as int)]);
    }
    r
}

/// Renders a number in decimal, matching `dec_str`.
pub fn u64_to_string(n: u64) -> (s: String)
    ensures
        s@ == dec_str(n as nat),
    decreases n,
{
    if n < 10 {
        digit_str(n).to_owned()
    } else {
        let mut s = u64_to_string(n / 10);
        s.append(digit_str(n % 10));
        proof {
            assert(s@ =~= dec_str(n as nat));
        }
        s
    }
}

/// The comment line printed ahead of an entry with a non-empty comment.
pub open spec fn comment_line(i: nat, comment: Seq<char>) -> Seq<char> {
    "File "@ + dec_str(i) + " comment:"@ + comment
}

/// The progress line for a directory entry (two spaces before the quote).
pub open spec fn dir_line(i: nat, path: Seq<char>) -> Seq<char> {
    "File "@ + dec_str(i) + " extracted to  \""@ + path + "\""@
}

/// The progress line for a file entry, with the declared uncompressed size.
pub open spec fn file_line(i: nat, path: Seq<char>, size: u64) -> Seq<char> {
    "File "@ + dec_str(i) + " extracted to \""@ + path + "\" ("@ + dec_str(size as nat) + " bytes )"@
}

/// Builds the comment line for entry `i`.
pub fn render_comment_line(i: u64, comment: &str) -> (s: String)
    ensures
        s@ == comment_line(i as nat, comment@),
{
    let mut s = String::new();
    s.append("File ");
    let num = u64_to_string(i);
    s.append(num.as_str());
    s.append(" comment:");
    s.append(comment);
    proof {
        assert(s@ =~= comment_line(i as nat, comment@));
    }
    s
}

/// Builds the progress line for a directory entry `i` at `path`.
pub fn render_dir_line(i: u64, path: &str) -> (s: String)
    ensures
        s@ == dir_line(i as nat, path@),
{
    let mut s = String::new();
    s.append("File ");
    let num = u64_to_string(i);
    s.append(num.as_str());
    s.append(" extracted to  \"");
    s.append(path);
    s.append("\"");
    proof {
        assert(s@ =~= dir_line(i as nat, path@));
    }
    s
}

/// Builds the progress line for a file entry `i` at `path` with `size` bytes.
pub fn render_file_line(i: u64, path: &str, size: u64) -> (s: String)
    ensures
        s@ == file_line(i as nat, path@, size),
{
    let mut s = String::new();
    s.append("File ");
    let num = u64_to_string(i);
    s.append(num.as_str());
    s.append(" extracted to \"");
    s.append(path);
    s.append("\" (");
    let sz = u64_to_string(size);
    s.append(sz.as_str());
    s.append(" bytes )");
    proof {
        assert(s@ =~= file_line(i as nat, path@, size));
    }
    s
}

} // verus!
