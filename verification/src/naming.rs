//! Names of the files that a run creates.
//!
//! Every clone operation writes to a file of its own. Its name is made of the
//! run's label, an underscore, the operation's index in decimal, and the
//! extension `.dat`. Two operations get the same name only if they agree in
//! both label and index, so no run overwrites a file of another run and no
//! operation a file of another operation.

use vstd::prelude::*;
use vstd::string::*;

verus! {

/// The character that stands for the digit `d`.
pub open spec fn digit_char(d: nat) -> char
    recommends
        d < 10,
{
    if d == 0 {
        '0'
    } else if d == 1 {
        '1'
    } else if d == 2 {
        '2'
    } else if d == 3 {
        '3'
    } else if d == 4 {
        '4'
    } else if d == 5 {
        '5'
    } else if d == 6 {
        '6'
    } else if d == 7 {
        '7'
    } else if d == 8 {
        '8'
    } else {
        '9'
    }
}

/// Whether `c` is one of the characters `0` to `9`.
pub open spec fn is_digit(c: char) -> bool {
    exists|d: nat| d < 10 && c == #[trigger] digit_char(d)
}

/// The digit that `c` stands for; 0 for every other character.
pub open spec fn digit_value(c: char) -> nat {
    if c == '1' {
        1
    } else if c == '2' {
        2
    } else if c == '3' {
        3
    } else if c == '4' {
        4
    } else if c == '5' {
        5
    } else if c == '6' {
        6
    } else if c == '7' {
        7
    } else if c == '8' {
        8
    } else if c == '9' {
        9
    } else {
        0
    }
}

/// `n` written in decimal, without sign or leading zeros.
pub open spec fn decimal(n: nat) -> Seq<char>
    decreases n,
{
    if n < 10 {
        seq![digit_char(n)]
    } else {
        decimal(n / 10).push(digit_char(n % 10))
    }
}

/// The number that a string of digits stands for.
pub open spec fn decimal_value(digits: Seq<char>) -> nat
    decreases digits.len(),
{
    if digits.len() == 0 {
        0
    } else {
        decimal_value(digits.drop_last()) * 10 + digit_value(digits.last())
    }
}

/// The extension of every file that a run creates.
pub open spec fn extension() -> Seq<char> {
    seq!['.', 'd', 'a', 't']
}

/// The name of the file that operation `index` of the run labelled `label`
/// writes to.
pub open spec fn target_name_of(label: Seq<char>, index: nat) -> Seq<char> {
    label + seq!['_'] + decimal(index) + extension()
}

/// The label of the sequential run.
pub open spec fn sequential_label_of() -> Seq<char> {
    seq!['r', 'e', 'f', 'l', 'i', 'n', 'k']
}

/// The label of the concurrent run with `workers` workers.
pub open spec fn concurrent_label_of(workers: nat) -> Seq<char> {
    seq!['c', 'o', 'n', 'c', 'u', 'r', 'r', 'e', 'n', 't', '_'] + decimal(workers)
}

/// The name of the file that all clones are made from.
pub open spec fn source_file_name_of() -> Seq<char> {
    seq!['s', 'o', 'u', 'r', 'c', 'e', '_', 'f', 'i', 'l', 'e', '.', 'd', 'a', 't']
}

/// A decimal numeral is never empty and holds digits only.
pub proof fn lemma_decimal_digits(n: nat)
    ensures
        decimal(n).len() >= 1,
        forall|i: int| 0 <= i < decimal(n).len() ==> is_digit(#[trigger] decimal(n)[i]),
    decreases n,
{
    if n < 10 {
        assert(is_digit(digit_char(n)));
    } else {
        lemma_decimal_digits(n / 10);
        assert(is_digit(digit_char(n % 10)));
    }
}

/// Reading a decimal numeral gives back the number that was written.
pub proof fn lemma_decimal_value(n: nat)
    ensures
        decimal_value(decimal(n)) == n,
    decreases n,
{
    if n < 10 {
        let s = seq![digit_char(n)];
        assert(s.drop_last() =~= Seq::<char>::empty());
        assert(decimal_value(s.drop_last()) == 0);
        assert(s.last() == digit_char(n));
    } else {
        lemma_decimal_value(n / 10);
        let s = decimal(n / 10).push(digit_char(n % 10));
        assert(s.drop_last() =~= decimal(n / 10));
        assert(s.last() == digit_char(n % 10));
    }
}

/// Different numbers have different decimal numerals.
pub proof fn lemma_decimal_injective(a: nat, b: nat)
    requires
        decimal(a) == decimal(b),
    ensures
        a == b,
{
    lemma_decimal_value(a);
    lemma_decimal_value(b);
}

/// Two target names are equal only if both the labels and the indices are:
/// operations of different runs, and different operations of one run, write
/// to different files.
pub proof fn lemma_target_names_distinct(
    label_a: Seq<char>,
    index_a: nat,
    label_b: Seq<char>,
    index_b: nat,
)
    requires
        target_name_of(label_a, index_a) == target_name_of(label_b, index_b),
    ensures
        label_a == label_b,
        index_a == index_b,
{
    let stem_a = label_a + seq!['_'] + decimal(index_a);
    let stem_b = label_b + seq!['_'] + decimal(index_b);
    let name_a = target_name_of(label_a, index_a);
    let name_b = target_name_of(label_b, index_b);
    assert(name_a.len() == stem_a.len() + 4);
    assert(name_b.len() == stem_b.len() + 4);
    assert(stem_a =~= name_a.subrange(0, stem_a.len() as int));
    assert(stem_b =~= name_b.subrange(0, stem_b.len() as int));
    assert(stem_a == stem_b);
    lemma_stems_distinct(label_a, index_a, label_b, index_b);
}

/// The runs of one benchmark have labels of their own: two concurrent runs
/// with different numbers of workers have different labels, and neither has
/// the label of the sequential run.
pub proof fn lemma_labels_distinct(workers_a: nat, workers_b: nat)
    requires
        workers_a != workers_b,
    ensures
        concurrent_label_of(workers_a) != concurrent_label_of(workers_b),
        concurrent_label_of(workers_a) != sequential_label_of(),
{
    let prefix = seq!['c', 'o', 'n', 'c', 'u', 'r', 'r', 'e', 'n', 't', '_'];
    let label_a = concurrent_label_of(workers_a);
    let label_b = concurrent_label_of(workers_b);
    assert(label_a[0] == 'c');
    assert(sequential_label_of()[0] == 'r');
    if label_a == label_b {
        assert(decimal(workers_a) =~= label_a.subrange(11, label_a.len() as int));
        assert(decimal(workers_b) =~= label_b.subrange(11, label_b.len() as int));
        lemma_decimal_injective(workers_a, workers_b);
    }
}

/// No operation writes to the source file: the source file's name is not the
/// target name of any label and index.
pub proof fn lemma_source_is_no_target(label: Seq<char>, index: nat)
    ensures
        target_name_of(label, index) != source_file_name_of(),
{
    let name = target_name_of(label, index);
    let digits = decimal(index);
    lemma_decimal_digits(index);
    let at = name.len() - 5;
    assert(name[at] == digits[digits.len() - 1]);
    assert(is_digit(digits[digits.len() - 1]));
    if name == source_file_name_of() {
        assert(source_file_name_of()[10] == 'e');
        assert(name[at] == 'e');
    }
}

proof fn lemma_digit_is_no_underscore(c: char)
    requires
        is_digit(c),
    ensures
        c != '_',
{
}

proof fn lemma_label_not_longer(label_a: Seq<char>, index_a: nat, label_b: Seq<char>, index_b: nat)
    requires
        label_a + seq!['_'] + decimal(index_a) == label_b + seq!['_'] + decimal(index_b),
    ensures
        label_a.len() >= label_b.len(),
{
    let stem_a = label_a + seq!['_'] + decimal(index_a);
    let stem_b = label_b + seq!['_'] + decimal(index_b);
    lemma_decimal_digits(index_a);
    lemma_decimal_digits(index_b);
    if label_a.len() < label_b.len() {
        let at = label_b.len() as int;
        assert(stem_b[at] == '_');
        assert(stem_a.len() == stem_b.len());
        let within = at - label_a.len() - 1;
        assert(stem_a[at] == decimal(index_a)[within]);
        assert(is_digit(decimal(index_a)[within]));
        lemma_digit_is_no_underscore(decimal(index_a)[within]);
    }
}

proof fn lemma_stems_distinct(label_a: Seq<char>, index_a: nat, label_b: Seq<char>, index_b: nat)
    requires
        label_a + seq!['_'] + decimal(index_a) == label_b + seq!['_'] + decimal(index_b),
    ensures
        label_a == label_b,
        index_a == index_b,
{
    let stem_a = label_a + seq!['_'] + decimal(index_a);
    let stem_b = label_b + seq!['_'] + decimal(index_b);
    lemma_label_not_longer(label_a, index_a, label_b, index_b);
    lemma_label_not_longer(label_b, index_b, label_a, index_a);
    let cut = label_a.len() as int;
    assert(label_a =~= stem_a.subrange(0, cut));
    assert(label_b =~= stem_b.subrange(0, cut));
    assert(decimal(index_a) =~= stem_a.subrange(cut + 1, stem_a.len() as int));
    assert(decimal(index_b) =~= stem_b.subrange(cut + 1, stem_b.len() as int));
    lemma_decimal_injective(index_a, index_b);
}

/// The one-character string of the digit `d`.
fn digit_str(d: u128) -> (text: &'static str)
    requires
        d < 10,
    ensures
        text@ == seq![digit_char(d as nat)],
{
    proof {
        reveal_strlit("0");
        reveal_strlit("1");
        reveal_strlit("2");
        reveal_strlit("3");
        reveal_strlit("4");
        reveal_strlit("5");
        reveal_strlit("6");
        reveal_strlit("7");
        reveal_strlit("8");
        reveal_strlit("9");
    }
    let text = if d == 0 {
        "0"
    } else if d == 1 {
        "1"
    } else if d == 2 {
        "2"
    } else if d == 3 {
        "3"
    } else if d == 4 {
        "4"
    } else if d == 5 {
        "5"
    } else if d == 6 {
        "6"
    } else if d == 7 {
        "7"
    } else if d == 8 {
        "8"
    } else {
        "9"
    };
    assert(text@ =~= seq![digit_char(d as nat)]);
    text
}

/// Writes `n` in decimal.
pub fn decimal_string(n: u128) -> (text: String)
    ensures
        text@ == decimal(n as nat),
    decreases n,
{
    if n < 10 {
        String::from_str(digit_str(n))
    } else {
        let mut text = decimal_string(n / 10);
        text.append(digit_str(n % 10));
        assert(text@ =~= decimal((n / 10) as nat).push(digit_char((n % 10) as nat)));
        text
    }
}

/// The name of the file that operation `index` of the run labelled `label`
/// writes to: the label, an underscore, the index in decimal, and `.dat`.
pub fn target_name(label: &str, index: u32) -> (name: String)
    ensures
        name@ == target_name_of(label@, index as nat),
{
    proof {
        reveal_strlit("_");
        reveal_strlit(".dat");
    }
    let mut name = String::from_str(label);
    name.append("_");
    let digits = decimal_string(index as u128);
    name.append(digits.as_str());
    name.append(".dat");
    assert(name@ =~= target_name_of(label@, index as nat));
    name
}

/// The label of the sequential run; its files are `reflink_0.dat`,
/// `reflink_1.dat` and so on.
pub fn sequential_label() -> (label: String)
    ensures
        label@ == sequential_label_of(),
{
    proof {
        reveal_strlit("reflink");
    }
    let label = String::from_str("reflink");
    assert(label@ =~= sequential_label_of());
    label
}

/// The label of the concurrent run with `workers` workers, such as
/// `concurrent_8`.
pub fn concurrent_label(workers: u32) -> (label: String)
    ensures
        label@ == concurrent_label_of(workers as nat),
{
    proof {
        reveal_strlit("concurrent_");
    }
    let mut label = String::from_str("concurrent_");
    let digits = decimal_string(workers as u128);
    label.append(digits.as_str());
    assert(label@ =~= concurrent_label_of(workers as nat));
    label
}

/// The name of the file that all clones are made from.
pub fn source_file_name() -> (name: String)
    ensures
        name@ == source_file_name_of(),
{
    proof {
        reveal_strlit("source_file.dat");
    }
    let name = String::from_str("source_file.dat");
    assert(name@ =~= source_file_name_of());
    name
}

} // verus!
