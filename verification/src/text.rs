//! Numbers written out in decimal digits, and the texts made of them.
use vstd::prelude::*;
use vstd::string::*;

verus! {

/// The character of a decimal digit.
pub open spec fn digit_char(d: int) -> char
    recommends
        0 <= d < 10,
{
    if d == 0 {
        '0'
    } else if d == 1 {
        '1'
    } else if d == 2 {
        '2'
    } else if d == 3 {
        '3'
    } else if d == 4 {
        '4'
    } else if d == 5 {
        '5'
    } else if d == 6 {
        '6'
    } else if d == 7 {
        '7'
    } else if d == 8 {
        '8'
    } else {
        '9'
    }
}

/// The decimal digits of `n`, the most significant first, without leading
/// zeros.
pub open spec fn decimal(n: nat) -> Seq<char>
    decreases n,
{
    if n < 10 {
        seq![digit_char(n as int)]
    } else {
        decimal(n / 10).push(digit_char((n % 10) as int))
    }
}

/// `k` zeros.
pub open spec fn zeros(k: nat) -> Seq<char> {
    Seq::new(k, |i: int| '0')
}

/// `s` with zeros in front of it, as many as it is short of `width`.
pub open spec fn zero_padded(s: Seq<char>, width: nat) -> Seq<char> {
    if s.len() >= width {
        s
    } else {
        zeros((width - s.len()) as nat) + s
    }
}

/// The tracking number of the shipment with identifier `id`: `SH` and the
/// identifier in decimal digits, six at least.
pub open spec fn tracking_number_of(id: u64) -> Seq<char> {
    seq!['S', 'H'] + zero_padded(decimal(id as nat), 6)
}

/// The text that says that no product has identifier `id`.
pub open spec fn product_not_found_text(id: u64) -> Seq<char> {
    "Product "@ + decimal(id as nat) + " not found"@
}

fn digit_text(d: u64) -> (s: &'static str)
    requires
        d < 10,
    ensures
        s@ == seq![digit_char(d as int)],
{
    proof {
        reveal_strlit("0");
        reveal_strlit("1");
        reveal_strlit("2");
        reveal_strlit("3");
        reveal_strlit("4");
        reveal_strlit("5");
        reveal_strlit("6");
        reveal_strlit("7");
        reveal_strlit("8");
        reveal_strlit("9");
    }
    let s = if d == 0 {
        "0"
    } else if d == 1 {
        "1"
    } else if d == 2 {
        "2"
    } else if d == 3 {
        "3"
    } else if d == 4 {
        "4"
    } else if d == 5 {
        "5"
    } else if d == 6 {
        "6"
    } else if d == 7 {
        "7"
    } else if d == 8 {
        "8"
    } else {
        "9"
    };
    assert(s@ =~= seq![digit_char(d as int)]);
    s
}

/// `n` in decimal digits.
pub fn decimal_text(n: u64) -> (s: String)
    ensures
        s@ == decimal(n as nat),
    decreases n,
{
    if n < 10 {
        digit_text(n).to_owned()
    } else {
        let mut s = decimal_text(n / 10);
        s.append(digit_text(n % 10));
        assert(s@ =~= decimal(n as nat));
        s
    }
}

/// The tracking number of the shipment with identifier `id`.
pub fn tracking_number(id: u64) -> (s: String)
    ensures
        s@ == tracking_number_of(id),
{
    let body = decimal_text(id);
    let len = body.as_str().unicode_len();
    let mut out = "SH".to_owned();
    proof {
        reveal_strlit("SH");
        reveal_strlit("0");
        assert(out@ =~= seq!['S', 'H'] + zeros(0));
    }
    let mut k: usize = len;
    while k < 6
        invariant
            len <= k,
            len < 6 ==> k <= 6,
            len >= 6 ==> k == len,
            out@ == seq!['S', 'H'] + zeros((k - len) as nat),
        decreases 6 - k,
    {
        out.append("0");
        k += 1;
        proof {
            reveal_strlit("0");
            assert(out@ =~= seq!['S', 'H'] + zeros((k - len) as nat));
        }
    }
    out.append(body.as_str());
    assert(out@ =~= tracking_number_of(id));
    out
}

/// The text that says that no product has identifier `id`.
pub fn product_not_found(id: u64) -> (s: String)
    ensures
        s@ == product_not_found_text(id),
{
    let mut out = "Product ".to_owned();
    out.append(decimal_text(id).as_str());
    out.append(" not found");
    out
}

} // verus!
