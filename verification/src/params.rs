//! Key-value parameters, the flat form in which the options of a request
//! travel, and the decimal numerals among their values.

use vstd::prelude::*;
use vstd::string::*;

verus! {

/// The mathematical value of a [`Param`].
pub struct ParamView {
    pub key: Seq<char>,
    pub value: Seq<char>,
}

/// One `key=value` parameter of a query string or form body.
#[derive(Debug, PartialEq, Eq)]
pub struct Param {
    pub key: String,
    pub value: String,
}

impl View for Param {
    type V = ParamView;

    open spec fn view(&self) -> ParamView {
        ParamView { key: self.key@, value: self.value@ }
    }
}

impl Clone for Param {
    fn clone(&self) -> (copy: Param)
        ensures
            copy@ == self@,
    {
        Param { key: self.key.clone(), value: self.value.clone() }
    }
}

impl Param {
    /// The parameter `key=value`.
    pub fn new(key: &str, value: String) -> (param: Param)
        ensures
            param@ == (ParamView { key: key@, value: value@ }),
    {
        Param { key: key.to_owned(), value }
    }
}

/// The parameters that a list of [`Param`] stands for, in order.
pub open spec fn params_view(params: Seq<Param>) -> Seq<ParamView> {
    params.map_values(|p: Param| p@)
}

/// What one parameter gives to `key`: its value if the key is its own,
/// nothing otherwise.
pub open spec fn value_for(param: ParamView, key: Seq<char>) -> Seq<Seq<char>> {
    if param.key == key {
        seq![param.value]
    } else {
        Seq::empty()
    }
}

/// The values that `params` gives to `key`, in the order in which they
/// stand. A key that does not occur has none; a key that occurs once has one.
pub open spec fn values_of(params: Seq<ParamView>, key: Seq<char>) -> Seq<Seq<char>>
    decreases params.len(),
{
    if params.len() == 0 {
        Seq::empty()
    } else {
        values_of(params.drop_last(), key) + value_for(params.last(), key)
    }
}

/// The values of a key in a concatenation are those of the parts, joined.
pub proof fn lemma_values_of_concat(first: Seq<ParamView>, second: Seq<ParamView>, key: Seq<char>)
    ensures
        values_of(first + second, key) == values_of(first, key) + values_of(second, key),
    decreases second.len(),
{
    if second.len() > 0 {
        assert((first + second).drop_last() =~= first + second.drop_last());
        lemma_values_of_concat(first, second.drop_last(), key);
    }
}

/// One parameter with the key `key` for each of `values`, in order.
pub open spec fn keyed(key: Seq<char>, values: Seq<Seq<char>>) -> Seq<ParamView> {
    values.map_values(|value: Seq<char>| ParamView { key, value })
}

/// Parameters that all carry one key give that key their values, and give
/// nothing to any other key.
pub proof fn lemma_values_of_keyed(key: Seq<char>, values: Seq<Seq<char>>, asked: Seq<char>)
    ensures
        values_of(keyed(key, values), asked) == (if asked == key {
            values
        } else {
            Seq::<Seq<char>>::empty()
        }),
    decreases values.len(),
{
    if values.len() > 0 {
        assert(keyed(key, values).drop_last() =~= keyed(key, values.drop_last()));
        lemma_values_of_keyed(key, values.drop_last(), asked);
    }
}

/// The decimal digit that stands for `d`, for `d` below ten.
pub open spec fn digit(d: nat) -> char {
    if d == 0 {
        '0'
    } else if d == 1 {
        '1'
    } else if d == 2 {
        '2'
    } else if d == 3 {
        '3'
    } else if d == 4 {
        '4'
    } else if d == 5 {
        '5'
    } else if d == 6 {
        '6'
    } else if d == 7 {
        '7'
    } else if d == 8 {
        '8'
    } else {
        '9'
    }
}

/// The decimal numeral of `n`: no sign, no leading zero, `0` for zero.
pub open spec fn decimal(n: nat) -> Seq<char>
    decreases n,
{
    if n < 10 {
        seq![digit(n)]
    } else {
        decimal(n / 10).push(digit(n % 10))
    }
}

fn digit_text(d: u16) -> (text: &'static str)
    requires
        d < 10,
    ensures
        text@ == seq![digit(d as nat)],
{
    proof {
        reveal_strlit("0");
        reveal_strlit("1");
        reveal_strlit("2");
        reveal_strlit("3");
        reveal_strlit("4");
        reveal_strlit("5");
        reveal_strlit("6");
        reveal_strlit("7");
        reveal_strlit("8");
        reveal_strlit("9");
    }
    let text = match d {
        0 => "0",
        1 => "1",
        2 => "2",
        3 => "3",
        4 => "4",
        5 => "5",
        6 => "6",
        7 => "7",
        8 => "8",
        _ => "9",
    };
    text
}

/// Writes `n` in decimal.
pub fn decimal_text(n: u16) -> (text: String)
    ensures
        text@ == decimal(n as nat),
    decreases n,
{
    if n < 10 {
        digit_text(n).to_owned()
    } else {
        let mut text = decimal_text(n / 10);
        text.append(digit_text(n % 10));
        text
    }
}

/// The number that a decimal digit stands for.
pub open spec fn digit_value(c: char) -> nat {
    if c == '1' {
        1
    } else if c == '2' {
        2
    } else if c == '3' {
        3
    } else if c == '4' {
        4
    } else if c == '5' {
        5
    } else if c == '6' {
        6
    } else if c == '7' {
        7
    } else if c == '8' {
        8
    } else if c == '9' {
        9
    } else {
        0
    }
}

/// The number that a string of decimal digits stands for, read in base ten.
pub open spec fn numeral_value(digits: Seq<char>) -> nat
    decreases digits.len(),
{
    if digits.len() == 0 {
        0
    } else {
        numeral_value(digits.drop_last()) * 10 + digit_value(digits.last())
    }
}

/// The numeral of `n` reads back as `n`.
pub proof fn lemma_decimal_reads_back(n: nat)
    ensures
        numeral_value(decimal(n)) == n,
    decreases n,
{
    if n < 10 {
        let one = seq![digit(n)];
        assert(numeral_value(one.drop_last()) == 0);
    } else {
        let all = decimal(n);
        assert(all.drop_last() =~= decimal(n / 10));
        lemma_decimal_reads_back(n / 10);
    }
}

/// The numeral of `n` is made of decimal digits alone, at least one of them,
/// and starts with `0` only where `n` is zero.
pub proof fn lemma_decimal_canonical(n: nat)
    ensures
        decimal(n).len() >= 1,
        forall|i: int| 0 <= i < decimal(n).len() ==> '0' <= #[trigger] decimal(n)[i] <= '9',
        decimal(n)[0] == '0' <==> n == 0,
    decreases n,
{
    if n >= 10 {
        lemma_decimal_canonical(n / 10);
    }
}

} // verus!
