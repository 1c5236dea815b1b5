//! How frame files are named and recognised.
//!
//! A frame of an external or built-in set is addressed as
//! `<folder>/frame_<number>.png`, the number written in decimal and padded
//! with zeros on the left to a fixed width. A directory entry counts as a
//! frame when its extension is `png` in any letter case.

use crate::text::{eq_ignore_ascii_case, matches_word};
use vstd::prelude::*;

verus! {

/// The character that stands for the decimal digit `d`.
pub open spec fn digit_char(d: nat) -> char
    recommends
        d < 10,
{
    "0123456789"@[d as int]
}

/// `n` in decimal, most significant digit first, without leading zeros.
pub open spec fn decimal(n: nat) -> Seq<char>
    decreases n,
{
    if n < 10 {
        seq![digit_char(n)]
    } else {
        decimal(n / 10).push(digit_char(n % 10))
    }
}

/// `count` zeros.
pub open spec fn zeros(count: nat) -> Seq<char> {
    Seq::new(count, |i: int| '0')
}

/// `n` in decimal, padded with zeros on the left to at least `width`
/// characters. A number with more digits than `width` is written in full.
pub open spec fn zero_padded(n: nat, width: nat) -> Seq<char> {
    let digits = decimal(n);
    if digits.len() >= width {
        digits
    } else {
        zeros((width - digits.len()) as nat) + digits
    }
}

/// The path of frame number `index` below `folder`.
pub open spec fn frame_path(folder: Seq<char>, index: nat, digits: nat) -> Seq<char> {
    folder + "/frame_"@ + zero_padded(index, digits) + ".png"@
}

/// The paths of frames `1` to `count` below `folder`, in ascending order.
pub open spec fn frame_paths(folder: Seq<char>, count: nat, digits: nat) -> Seq<Seq<char>> {
    Seq::new(count, |i: int| frame_path(folder, (i + 1) as nat, digits))
}

/// The number of decimal digits of `n`.
pub fn decimal_width(n: usize) -> (width: usize)
    ensures
        width == decimal(n as nat).len(),
        1 <= width <= n + 1,
    decreases n,
{
    if n < 10 {
        1
    } else {
        let rest: usize = decimal_width(n / 10);
        rest + 1
    }
}

/// Appends `n` in decimal to `text`.
pub fn append_decimal(text: &mut String, n: usize)
    ensures
        final(text)@ == old(text)@ + decimal(n as nat),
    decreases n,
{
    if n >= 10 {
        append_decimal(text, n / 10);
    }
    let d: usize = n % 10;
    proof {
        reveal_strlit("0123456789");
    }
    let digit = "0123456789".substring_char(d, d + 1);
    assert(digit@ =~= seq![digit_char(d as nat)]);
    let ghost before = text@;
    text.append(digit);
    assert(text@ =~= old(text)@ + decimal(n as nat)) by {
        if n >= 10 {
            assert(before == old(text)@ + decimal((n / 10) as nat));
        }
    }
}

/// Writes `n` in decimal, padded with zeros on the left to at least `width`
/// characters.
pub fn zero_padded_decimal(n: usize, width: usize) -> (text: String)
    ensures
        text@ == zero_padded(n as nat, width as nat),
{
    let len: usize = decimal_width(n);
    let mut text = String::new();
    let mut written: usize = len;
    while written < width
        invariant
            len <= written,
            written <= width || written == len,
            text@ == zeros((written - len) as nat),
        decreases width - written,
    {
        proof {
            reveal_strlit("0");
        }
        text.append("0");
        written += 1;
        assert(text@ =~= zeros((written - len) as nat));
    }
    let ghost padding = text@;
    append_decimal(&mut text, n);
    assert(text@ =~= zero_padded(n as nat, width as nat)) by {
        assert(padding.len() == 0 ==> padding + decimal(n as nat) =~= decimal(n as nat));
    }
    text
}

/// Writes the path of frame number `index` below `folder`, the number padded
/// to `digits` characters.
pub fn frame_file_path(folder: &str, index: usize, digits: u32) -> (path: String)
    ensures
        path@ == frame_path(folder@, index as nat, digits as nat),
{
    let mut path = String::from_str(folder);
    path.append("/frame_");
    let number = zero_padded_decimal(index, digits as usize);
    path.append(number.as_str());
    path.append(".png");
    path
}

/// Writes the paths of frames `1` to `count` below `folder`, in ascending
/// order of their numbers.
pub fn frame_file_paths(folder: &str, count: usize, digits: u32) -> (paths: Vec<String>)
    ensures
        paths.deep_view() == frame_paths(folder@, count as nat, digits as nat),
{
    let mut paths: Vec<String> = Vec::new();
    let mut done: usize = 0;
    while done < count
        invariant
            done <= count,
            paths.len() == done,
            forall|k: int|
                0 <= k < done ==> (#[trigger] paths@[k])@ == frame_path(
                    folder@,
                    (k + 1) as nat,
                    digits as nat,
                ),
        decreases count - done,
    {
        let path = frame_file_path(folder, done + 1, digits);
        paths.push(path);
        done += 1;
    }
    assert(paths.deep_view() =~= frame_paths(folder@, count as nat, digits as nat));
    paths
}

/// The index of the last full stop in `name`, if there is one.
pub open spec fn last_dot(name: Seq<char>) -> Option<int>
    decreases name.len(),
{
    if name.len() == 0 {
        None
    } else if name.last() == '.' {
        Some(name.len() - 1)
    } else {
        last_dot(name.drop_last())
    }
}

/// The extension of a file name: what follows its last full stop, provided
/// that something stands before that full stop and the name is not `..`.
pub open spec fn extension(name: Seq<char>) -> Option<Seq<char>> {
    match last_dot(name) {
        Some(dot) => if dot > 0 && name != seq!['.', '.'] {
            Some(name.subrange(dot + 1, name.len() as int))
        } else {
            None
        },
        None => None,
    }
}

/// Whether a directory entry of this name counts as a frame.
pub open spec fn is_png_name(name: Seq<char>) -> bool {
    match extension(name) {
        Some(ext) => eq_ignore_ascii_case(ext, "png"@),
        None => false,
    }
}

/// How many of `names` count as frames.
pub open spec fn png_count(names: Seq<Seq<char>>) -> nat
    decreases names.len(),
{
    if names.len() == 0 {
        0
    } else {
        png_count(names.drop_last()) + if is_png_name(names.last()) {
            1nat
        } else {
            0nat
        }
    }
}

/// `last_dot` finds a full stop that no full stop follows, and finds none
/// only where there is none.
pub proof fn lemma_last_dot(name: Seq<char>)
    ensures
        match last_dot(name) {
            Some(dot) => {
                &&& 0 <= dot < name.len()
                &&& name[dot] == '.'
                &&& forall|j: int| dot < j < name.len() ==> name[j] != '.'
            },
            None => forall|j: int| 0 <= j < name.len() ==> name[j] != '.',
        },
    decreases name.len(),
{
    if name.len() > 0 && name.last() != '.' {
        let front = name.drop_last();
        lemma_last_dot(front);
        assert forall|j: int| 0 <= j < front.len() implies front[j] == name[j] by {}
        match last_dot(front) {
            Some(dot) => {
                assert forall|j: int| dot < j < name.len() implies name[j] != '.' by {
                    if j < front.len() {
                        assert(front[j] != '.');
                    }
                }
            },
            None => {
                assert forall|j: int| 0 <= j < name.len() implies name[j] != '.' by {
                    if j < front.len() {
                        assert(front[j] != '.');
                    }
                }
            },
        }
    }
}

/// Whether a directory entry of this name counts as a frame: its extension
/// is `png`, in any letter case.
pub fn has_png_extension(name: &str) -> (r: bool)
    ensures
        r == is_png_name(name@),
{
    proof {
        lemma_last_dot(name@);
        reveal_strlit("png");
    }
    let n: usize = name.unicode_len();
    if n < 5 {
        return false;
    }
    if name.get_char(n - 4) != '.' {
        return false;
    }
    let ext = name.substring_char(n - 3, n);
    let r = matches_word(ext, "png");
    proof {
        if r {
            assert(ext@[0] != '.' && ext@[1] != '.' && ext@[2] != '.');
            assert(forall|j: int| n - 4 < j < n ==> name@[j] == ext@[j - (n - 3)]);
            assert(last_dot(name@) == Some((n - 4) as int));
            assert(name@.subrange(n - 3, n as int) =~= ext@);
        } else {
            if is_png_name(name@) {
                let dot = last_dot(name@)->0;
                assert(name@.subrange(dot + 1, n as int).len() == 3);
                assert(dot == n - 4);
            }
        }
    }
    r
}

/// Counts the directory entries that are frames.
pub fn count_png_entries(names: &Vec<String>) -> (count: usize)
    ensures
        count == png_count(names.deep_view()),
{
    let mut count: usize = 0;
    let mut i: usize = 0;
    while i < names.len()
        invariant
            i <= names.len(),
            count <= i,
            count == png_count(names.deep_view().take(i as int)),
        decreases names.len() - i,
    {
        let ghost seen = names.deep_view().take(i as int);
        let ghost next = names.deep_view().take(i + 1);
        assert(next.drop_last() =~= seen);
        assert(next.last() == names[i as int]@);
        if has_png_extension(names[i].as_str()) {
            count += 1;
        }
        i += 1;
    }
    assert(names.deep_view().take(i as int) =~= names.deep_view());
    count
}

} // verus!
